//! Animation playback resolver: observes the physics controller's low-level
//! action and the state machine's authoritative state, derives the current
//! discriminant, and chooses which clip to play, at what speed, with what
//! blend time, whenever the discriminant changes.
//!
//! Physics action identifiers form a closed enum, so there is no
//! unknown-action case to handle at runtime.  The blend-time table over
//! ordered (old, new) discriminant pairs and the per-stage attack speeds
//! are the tuning surface of the whole system and are exposed as named
//! constants.

use vstd::prelude::*;

use crate::feeder::{InputState, Player};
use crate::state::{family_of, AttackDirection, PlayerAnimationState};

verus! {

/// Horizontal speed at or below which the character counts as standing
/// still, in milli-units per second.
pub const SPEED_EPSILON_MILLI: u32 = 10;

/// Default blend into the idle clip, in milliseconds.
pub const BLEND_IDLE_MS: u32 = 250;

/// Default blend into the walk clip, in milliseconds.
pub const BLEND_WALK_MS: u32 = 250;

/// Default blend into the run clip, in milliseconds.
pub const BLEND_RUN_MS: u32 = 200;

/// Default blend into the jump clip, in milliseconds.
pub const BLEND_JUMP_MS: u32 = 150;

/// Default blend into the fall clip, in milliseconds.
pub const BLEND_FALL_MS: u32 = 150;

/// Default blend into an attack clip, in milliseconds.
pub const BLEND_ATTACK_MS: u32 = 100;

/// Default blend into the roll clip, in milliseconds.
pub const BLEND_ROLL_MS: u32 = 100;

/// A common smooth blend, in milliseconds.
pub const BLEND_COMMON_MS: u32 = 200;

/// A fast blend, in milliseconds.
pub const BLEND_FAST_MS: u32 = 100;

/// A very fast blend for the most responsive pairs, in milliseconds.
pub const BLEND_VERY_FAST_MS: u32 = 50;

/// Playback rate of the walk clip while exhausted, in per-mille.
pub const EXHAUSTED_WALK_SPEED_PERMILLE: u32 = 600;

/// Playback rate of the roll clip, in per-mille.
pub const ROLL_SPEED_PERMILLE: u32 = 1_500;

/// The phase the physics controller reports for its jump action.
#[derive(Clone, Copy, Debug, PartialEq, Eq, Structural)]
pub enum JumpPhase {
    NoJump,
    StartingJump,
    SlowDownTooFastSlopeJump,
    MaintainingJump,
    StoppedMaintainingJump,
    FallSection,
}

/// The discrete action the physics controller is currently performing, as
/// a closed sum: no unrecognized-name branch can exist.
#[derive(Clone, Copy, Debug, PartialEq, Eq, Structural)]
pub enum PhysicsAction {
    NoAction,
    Jump(JumpPhase),
    Dash,
}

/// Handle of an animation clip known to the external animator.
#[derive(Clone, Copy, Debug, PartialEq, Eq, Structural)]
pub enum ClipId {
    IdleClip,
    TposeClip,
    JumpClip,
    RunClip,
    AttackClip,
    Attack2Clip,
    Attack3Clip,
    RollClip,
    WalkClip,
    FallClip,
}

/// What the resolver tells the external animator to do this tick.
#[derive(Clone, Copy, Debug, PartialEq, Eq, Structural)]
pub enum PlaybackCommand {
    /// The discriminant did not change; keep the playing clip as it is.
    KeepCurrent,
    /// The discriminant did not change but the character is exhausted
    /// while running: refresh onto the walk clip at
    /// `EXHAUSTED_WALK_SPEED_PERMILLE`, blending over `BLEND_WALK_MS`,
    /// repeating.
    RefreshExhaustedWalk,
    /// The discriminant changed: play a new clip with the given blend time
    /// and playback rate.
    Play { clip: ClipId, blend_ms: u32, speed_permille: u32, repeat: bool },
}

/// Tracks the discriminant the animator last played, to detect changes.
#[derive(Clone, Copy, Debug, PartialEq)]
pub struct AnimatingState {
    pub current: Option<PlayerAnimationState>,
}

/// Whether the already-playing clip may be kept (`Maintain`) or a new clip
/// must be requested (`Alter`).
#[derive(Clone, Copy, Debug, PartialEq)]
pub enum AnimatingDirective {
    Maintain,
    Alter { old_state: Option<PlayerAnimationState> },
}

/// The directive for a newly observed discriminant: `Maintain` exactly
/// when it equals the one playing.  Each distinct `Attacking(stage,
/// direction)` pair is a distinct discriminant here; every other variant
/// carries no payload, so it compares by family alone.
pub open spec fn spec_directive(
    cur: Option<PlayerAnimationState>,
    observed: PlayerAnimationState,
) -> AnimatingDirective {
    if cur == Some(observed) {
        AnimatingDirective::Maintain
    } else {
        AnimatingDirective::Alter { old_state: cur }
    }
}

/// The discriminant the character is in, derived by priority: an in-flight
/// attack reads the exact attacking state straight from the state machine
/// (the sole source of truth during an attack); otherwise the physics
/// action decides; with no action, the basis state decides by grounding
/// and horizontal speed, with exhaustion and the sprint modifier telling
/// walking from running.
pub open spec fn spec_classify(
    is_attacking: bool,
    machine_state: PlayerAnimationState,
    action: PhysicsAction,
    grounded: bool,
    speed_milli: u32,
    exhausted: bool,
    run_held: bool,
) -> PlayerAnimationState {
    if is_attacking {
        if machine_state is Attacking {
            machine_state
        } else {
            PlayerAnimationState::Attacking(0u8, AttackDirection::Forward)
        }
    } else {
        match action {
            PhysicsAction::Jump(phase) => match phase {
                JumpPhase::NoJump => PlayerAnimationState::Idling,
                JumpPhase::FallSection => PlayerAnimationState::Falling,
                _ => PlayerAnimationState::Jumping,
            },
            PhysicsAction::Dash => PlayerAnimationState::Rolling,
            PhysicsAction::NoAction => {
                if !grounded {
                    PlayerAnimationState::Falling
                } else if speed_milli > SPEED_EPSILON_MILLI {
                    if exhausted {
                        PlayerAnimationState::Walking
                    } else if run_held {
                        PlayerAnimationState::Running
                    } else {
                        PlayerAnimationState::Walking
                    }
                } else {
                    PlayerAnimationState::Idling
                }
            },
        }
    }
}

/// Executable twin of `spec_classify`.
pub fn classify(
    is_attacking: bool,
    machine_state: PlayerAnimationState,
    action: PhysicsAction,
    grounded: bool,
    speed_milli: u32,
    exhausted: bool,
    run_held: bool,
) -> (s: PlayerAnimationState)
    ensures
        s == spec_classify(
            is_attacking,
            machine_state,
            action,
            grounded,
            speed_milli,
            exhausted,
            run_held,
        ),
{
    if is_attacking {
        if let PlayerAnimationState::Attacking(stage, direction) = machine_state {
            PlayerAnimationState::Attacking(stage, direction)
        } else {
            PlayerAnimationState::Attacking(0, AttackDirection::Forward)
        }
    } else {
        match action {
            PhysicsAction::Jump(phase) => match phase {
                JumpPhase::NoJump => PlayerAnimationState::Idling,
                JumpPhase::FallSection => PlayerAnimationState::Falling,
                _ => PlayerAnimationState::Jumping,
            },
            PhysicsAction::Dash => PlayerAnimationState::Rolling,
            PhysicsAction::NoAction => {
                if !grounded {
                    PlayerAnimationState::Falling
                } else if speed_milli > SPEED_EPSILON_MILLI {
                    if exhausted {
                        PlayerAnimationState::Walking
                    } else if run_held {
                        PlayerAnimationState::Running
                    } else {
                        PlayerAnimationState::Walking
                    }
                } else {
                    PlayerAnimationState::Idling
                }
            },
        }
    }
}

/// Blend time when altering from `old_state` to `observed`, in
/// milliseconds: a pure lookup over the ordered pair, with per-target
/// defaults.  Responsive pairs (running into jumping, stage into stage)
/// blend fastest.
pub open spec fn spec_blend_time_ms(
    old_state: Option<PlayerAnimationState>,
    observed: PlayerAnimationState,
) -> u32 {
    match observed {
        PlayerAnimationState::Idling => match old_state {
            Some(PlayerAnimationState::Walking) => BLEND_FAST_MS,
            Some(PlayerAnimationState::Running) => BLEND_COMMON_MS,
            Some(PlayerAnimationState::Jumping) => BLEND_COMMON_MS,
            Some(PlayerAnimationState::Falling) => BLEND_COMMON_MS,
            Some(PlayerAnimationState::Rolling) => BLEND_COMMON_MS,
            _ => BLEND_IDLE_MS,
        },
        PlayerAnimationState::Walking => match old_state {
            Some(PlayerAnimationState::Idling) => BLEND_VERY_FAST_MS,
            Some(PlayerAnimationState::Running) => BLEND_FAST_MS,
            Some(PlayerAnimationState::Falling) => BLEND_COMMON_MS,
            Some(PlayerAnimationState::Jumping) => BLEND_COMMON_MS,
            Some(PlayerAnimationState::Rolling) => BLEND_FAST_MS,
            _ => BLEND_WALK_MS,
        },
        PlayerAnimationState::Falling => match old_state {
            Some(PlayerAnimationState::Jumping) => BLEND_VERY_FAST_MS,
            _ => BLEND_FALL_MS,
        },
        PlayerAnimationState::Running => match old_state {
            Some(PlayerAnimationState::Walking) => BLEND_VERY_FAST_MS,
            Some(PlayerAnimationState::Jumping) => BLEND_FAST_MS,
            Some(PlayerAnimationState::Rolling) => BLEND_FAST_MS,
            _ => BLEND_RUN_MS,
        },
        PlayerAnimationState::Jumping => match old_state {
            Some(PlayerAnimationState::Running) => BLEND_VERY_FAST_MS,
            Some(PlayerAnimationState::Walking) => BLEND_FAST_MS,
            _ => BLEND_JUMP_MS,
        },
        PlayerAnimationState::Attacking(_, _) => match old_state {
            Some(PlayerAnimationState::Running) => BLEND_VERY_FAST_MS,
            Some(PlayerAnimationState::Walking) => BLEND_VERY_FAST_MS,
            Some(PlayerAnimationState::Attacking(_, _)) => BLEND_VERY_FAST_MS,
            _ => BLEND_ATTACK_MS,
        },
        PlayerAnimationState::Rolling => match old_state {
            Some(PlayerAnimationState::Running) => BLEND_VERY_FAST_MS,
            Some(PlayerAnimationState::Walking) => BLEND_VERY_FAST_MS,
            _ => BLEND_ROLL_MS,
        },
        PlayerAnimationState::Tpose => 0u32,
    }
}

/// Executable twin of `spec_blend_time_ms`.
pub fn blend_time_ms(old_state: Option<PlayerAnimationState>, observed: PlayerAnimationState) -> (t:
    u32)
    ensures
        t == spec_blend_time_ms(old_state, observed),
{
    match observed {
        PlayerAnimationState::Idling => match old_state {
            Some(PlayerAnimationState::Walking) => BLEND_FAST_MS,
            Some(PlayerAnimationState::Running) => BLEND_COMMON_MS,
            Some(PlayerAnimationState::Jumping) => BLEND_COMMON_MS,
            Some(PlayerAnimationState::Falling) => BLEND_COMMON_MS,
            Some(PlayerAnimationState::Rolling) => BLEND_COMMON_MS,
            _ => BLEND_IDLE_MS,
        },
        PlayerAnimationState::Walking => match old_state {
            Some(PlayerAnimationState::Idling) => BLEND_VERY_FAST_MS,
            Some(PlayerAnimationState::Running) => BLEND_FAST_MS,
            Some(PlayerAnimationState::Falling) => BLEND_COMMON_MS,
            Some(PlayerAnimationState::Jumping) => BLEND_COMMON_MS,
            Some(PlayerAnimationState::Rolling) => BLEND_FAST_MS,
            _ => BLEND_WALK_MS,
        },
        PlayerAnimationState::Falling => match old_state {
            Some(PlayerAnimationState::Jumping) => BLEND_VERY_FAST_MS,
            _ => BLEND_FALL_MS,
        },
        PlayerAnimationState::Running => match old_state {
            Some(PlayerAnimationState::Walking) => BLEND_VERY_FAST_MS,
            Some(PlayerAnimationState::Jumping) => BLEND_FAST_MS,
            Some(PlayerAnimationState::Rolling) => BLEND_FAST_MS,
            _ => BLEND_RUN_MS,
        },
        PlayerAnimationState::Jumping => match old_state {
            Some(PlayerAnimationState::Running) => BLEND_VERY_FAST_MS,
            Some(PlayerAnimationState::Walking) => BLEND_FAST_MS,
            _ => BLEND_JUMP_MS,
        },
        PlayerAnimationState::Attacking(_, _) => match old_state {
            Some(PlayerAnimationState::Running) => BLEND_VERY_FAST_MS,
            Some(PlayerAnimationState::Walking) => BLEND_VERY_FAST_MS,
            Some(PlayerAnimationState::Attacking(_, _)) => BLEND_VERY_FAST_MS,
            _ => BLEND_ATTACK_MS,
        },
        PlayerAnimationState::Rolling => match old_state {
            Some(PlayerAnimationState::Running) => BLEND_VERY_FAST_MS,
            Some(PlayerAnimationState::Walking) => BLEND_VERY_FAST_MS,
            _ => BLEND_ROLL_MS,
        },
        PlayerAnimationState::Tpose => 0,
    }
}

/// The clip handle for a discriminant; each combo stage maps to its own
/// clip.
pub open spec fn spec_clip_for(s: PlayerAnimationState) -> ClipId {
    match s {
        PlayerAnimationState::Tpose => ClipId::TposeClip,
        PlayerAnimationState::Idling => ClipId::IdleClip,
        PlayerAnimationState::Jumping => ClipId::JumpClip,
        PlayerAnimationState::Running => ClipId::RunClip,
        PlayerAnimationState::Attacking(stage, _) => if stage == 0 {
            ClipId::AttackClip
        } else if stage == 1 {
            ClipId::Attack2Clip
        } else {
            ClipId::Attack3Clip
        },
        PlayerAnimationState::Rolling => ClipId::RollClip,
        PlayerAnimationState::Walking => ClipId::WalkClip,
        PlayerAnimationState::Falling => ClipId::FallClip,
    }
}

/// Executable twin of `spec_clip_for`.
pub fn clip_for(s: PlayerAnimationState) -> (c: ClipId)
    ensures
        c == spec_clip_for(s),
{
    match s {
        PlayerAnimationState::Tpose => ClipId::TposeClip,
        PlayerAnimationState::Idling => ClipId::IdleClip,
        PlayerAnimationState::Jumping => ClipId::JumpClip,
        PlayerAnimationState::Running => ClipId::RunClip,
        PlayerAnimationState::Attacking(stage, _) => if stage == 0 {
            ClipId::AttackClip
        } else if stage == 1 {
            ClipId::Attack2Clip
        } else {
            ClipId::Attack3Clip
        },
        PlayerAnimationState::Rolling => ClipId::RollClip,
        PlayerAnimationState::Walking => ClipId::WalkClip,
        PlayerAnimationState::Falling => ClipId::FallClip,
    }
}

/// Base playback rate of an attack by direction, in per-mille: backward
/// attacks play fastest, side attacks slightly slower than forward.
pub open spec fn spec_attack_direction_speed_permille(d: AttackDirection) -> u32 {
    match d {
        AttackDirection::Forward => 1_800u32,
        AttackDirection::Left => 1_700u32,
        AttackDirection::Right => 1_700u32,
        AttackDirection::Backward => 2_000u32,
    }
}

/// Speed boost of an attack by combo stage, in per-mille: the finisher is
/// much faster.
pub open spec fn spec_combo_speed_boost_permille(stage: u8) -> u32 {
    if stage == 0 {
        1_000u32
    } else if stage == 1 {
        1_100u32
    } else {
        1_300u32
    }
}

/// Playback rate for a discriminant, in per-mille: attacks combine their
/// direction base rate with the combo-stage boost, rolls play fast, the
/// t-pose is frozen, and everything else plays at unit rate.
pub open spec fn spec_play_speed_permille(s: PlayerAnimationState) -> u32 {
    match s {
        PlayerAnimationState::Attacking(stage, d) => (spec_attack_direction_speed_permille(d)
            * spec_combo_speed_boost_permille(stage) / 1000) as u32,
        PlayerAnimationState::Rolling => ROLL_SPEED_PERMILLE,
        PlayerAnimationState::Tpose => 0u32,
        _ => 1_000u32,
    }
}

/// Executable twin of `spec_play_speed_permille`.
pub fn play_speed_permille(s: PlayerAnimationState) -> (v: u32)
    ensures
        v == spec_play_speed_permille(s),
{
    match s {
        PlayerAnimationState::Attacking(stage, d) => {
            let base: u32 = match d {
                AttackDirection::Forward => 1_800,
                AttackDirection::Left => 1_700,
                AttackDirection::Right => 1_700,
                AttackDirection::Backward => 2_000,
            };
            let boost: u32 = if stage == 0 {
                1_000
            } else if stage == 1 {
                1_100
            } else {
                1_300
            };
            base * boost / 1000
        },
        PlayerAnimationState::Rolling => ROLL_SPEED_PERMILLE,
        PlayerAnimationState::Tpose => 0,
        _ => 1_000,
    }
}

/// Whether a discriminant's clip loops.
pub open spec fn spec_repeats(s: PlayerAnimationState) -> bool {
    match s {
        PlayerAnimationState::Idling => true,
        PlayerAnimationState::Walking => true,
        PlayerAnimationState::Running => true,
        PlayerAnimationState::Falling => true,
        _ => false,
    }
}

/// Executable twin of `spec_repeats`.
pub fn repeats(s: PlayerAnimationState) -> (r: bool)
    ensures
        r == spec_repeats(s),
{
    match s {
        PlayerAnimationState::Idling => true,
        PlayerAnimationState::Walking => true,
        PlayerAnimationState::Running => true,
        PlayerAnimationState::Falling => true,
        _ => false,
    }
}

/// The playback command for an observed discriminant: on a maintained
/// discriminant only continuous parameters are refreshed (the exhausted
/// runner blends down onto the walk clip); on an altered one, a new clip is
/// requested with the blend time of the ordered pair.
pub open spec fn spec_playback(
    cur: Option<PlayerAnimationState>,
    observed: PlayerAnimationState,
    exhausted: bool,
) -> PlaybackCommand {
    match spec_directive(cur, observed) {
        AnimatingDirective::Maintain => if observed is Running && exhausted {
            PlaybackCommand::RefreshExhaustedWalk
        } else {
            PlaybackCommand::KeepCurrent
        },
        AnimatingDirective::Alter { old_state } => PlaybackCommand::Play {
            clip: spec_clip_for(observed),
            blend_ms: spec_blend_time_ms(old_state, observed),
            speed_permille: spec_play_speed_permille(observed),
            repeat: spec_repeats(observed),
        },
    }
}

impl AnimatingState {
    /// A fresh tracker with nothing playing yet.
    pub fn new() -> (a: AnimatingState)
        ensures
            a.current == None::<PlayerAnimationState>,
    {
        AnimatingState { current: None }
    }

    /// Records the newly observed discriminant and reports whether the
    /// playing clip may be maintained or must be altered, as
    /// `spec_directive` states.
    pub fn update_by_discriminant(&mut self, observed: PlayerAnimationState) -> (d:
        AnimatingDirective)
        ensures
            d == spec_directive(old(self).current, observed),
            final(self).current == Some(observed),
    {
        let maintained = match self.current {
            Some(prev) => prev == observed,
            None => false,
        };
        let d = if maintained {
            AnimatingDirective::Maintain
        } else {
            AnimatingDirective::Alter { old_state: self.current }
        };
        self.current = Some(observed);
        d
    }

    /// Resolves one tick of playback: records the observed discriminant
    /// and returns what the external animator should do, as
    /// `spec_playback` states.
    pub fn resolve_playback(&mut self, observed: PlayerAnimationState, exhausted: bool) -> (cmd:
        PlaybackCommand)
        ensures
            cmd == spec_playback(old(self).current, observed, exhausted),
            final(self).current == Some(observed),
    {
        let directive = self.update_by_discriminant(observed);
        match directive {
            AnimatingDirective::Maintain => {
                if matches!(observed, PlayerAnimationState::Running) && exhausted {
                    PlaybackCommand::RefreshExhaustedWalk
                } else {
                    PlaybackCommand::KeepCurrent
                }
            },
            AnimatingDirective::Alter { old_state } => PlaybackCommand::Play {
                clip: clip_for(observed),
                blend_ms: blend_time_ms(old_state, observed),
                speed_permille: play_speed_permille(observed),
                repeat: repeats(observed),
            },
        }
    }
}

/// An attack input is fully resolved within its own tick: when the feeder
/// accepts an attack, the tick leaves the character attacking, and the
/// resolver—reading the state machine as the sole source of truth during an
/// attack—derives exactly that attacking discriminant, whatever the physics
/// controller reports.  There is no one-tick lag between an accepted attack
/// and its animation request.
pub proof fn lemma_same_tick_attack_playback(
    p: Player,
    input: InputState,
    grounded: bool,
    dt_ms: u32,
    action: PhysicsAction,
    observed_grounded: bool,
    speed_milli: u32,
    exhausted: bool,
    run_held: bool,
)
    requires
        p.spec_after_dash(input, grounded, dt_ms).spec_attack_accepted(input),
    ensures
        p.spec_feeder_tick(input, grounded, dt_ms).is_attacking,
        p.spec_feeder_tick(input, grounded, dt_ms).machine.current_state is Attacking,
        spec_classify(
            p.spec_feeder_tick(input, grounded, dt_ms).is_attacking,
            p.spec_feeder_tick(input, grounded, dt_ms).machine.current_state,
            action,
            observed_grounded,
            speed_milli,
            exhausted,
            run_held,
        ) == p.spec_feeder_tick(input, grounded, dt_ms).machine.current_state,
{
}

/// Discriminant-change detection never fires on a repeated discriminant
/// and always fires on a family change: an observed state equal to the one
/// playing is maintained (so refreshing a continuous parameter such as the
/// running speed cannot restart the clip), a state of another family is
/// altered, and within a payload-free family (every family but the
/// attacking one) a repeat of the family alone is already a repeat of the
/// state.
pub proof fn lemma_discriminant_change_detection(
    prev: PlayerAnimationState,
    observed: PlayerAnimationState,
)
    ensures
        prev == observed ==> spec_directive(Some(prev), observed) is Maintain,
        family_of(prev) != family_of(observed) ==> spec_directive(Some(prev), observed) is Alter,
        family_of(prev) == family_of(observed) && !(observed is Attacking) ==> spec_directive(
            Some(prev),
            observed,
        ) is Maintain,
{
}

} // verus!

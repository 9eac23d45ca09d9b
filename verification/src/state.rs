//! Animation discriminants: the tagged variants the state machine and the
//! playback resolver reason about.
//!
//! Each distinct `Attacking(stage, direction)` pair is a distinct
//! discriminant for animation-selection purposes, while combo-continuation
//! logic treats the whole `Attacking` family as one.

use vstd::prelude::*;

verus! {

/// Direction of a melee attack, chosen from the held movement keys.
#[derive(Clone, Copy, Debug, PartialEq, Eq, Structural)]
pub enum AttackDirection {
    Forward,
    Left,
    Right,
    Backward,
}

/// The authoritative animation discriminant of a character.  `Attacking`
/// carries the combo stage and the attack direction.
#[derive(Clone, Copy, Debug, PartialEq, Eq, Structural)]
pub enum PlayerAnimationState {
    Tpose,
    Idling,
    Jumping,
    Running,
    Attacking(u8, AttackDirection),
    Rolling,
    Walking,
    Falling,
}

/// The family of a discriminant: its tag with the `Attacking` payload
/// stripped.  Combo continuation and cancellation targets are decided per
/// family.
#[derive(Clone, Copy, Debug, PartialEq, Eq, Structural)]
pub enum StateFamily {
    TposeFamily,
    IdlingFamily,
    JumpingFamily,
    RunningFamily,
    AttackingFamily,
    RollingFamily,
    WalkingFamily,
    FallingFamily,
}

/// The family a discriminant belongs to.
pub open spec fn family_of(s: PlayerAnimationState) -> StateFamily {
    match s {
        PlayerAnimationState::Tpose => StateFamily::TposeFamily,
        PlayerAnimationState::Idling => StateFamily::IdlingFamily,
        PlayerAnimationState::Jumping => StateFamily::JumpingFamily,
        PlayerAnimationState::Running => StateFamily::RunningFamily,
        PlayerAnimationState::Attacking(_, _) => StateFamily::AttackingFamily,
        PlayerAnimationState::Rolling => StateFamily::RollingFamily,
        PlayerAnimationState::Walking => StateFamily::WalkingFamily,
        PlayerAnimationState::Falling => StateFamily::FallingFamily,
    }
}

/// Executable twin of `family_of`.
pub fn family(s: PlayerAnimationState) -> (f: StateFamily)
    ensures
        f == family_of(s),
{
    match s {
        PlayerAnimationState::Tpose => StateFamily::TposeFamily,
        PlayerAnimationState::Idling => StateFamily::IdlingFamily,
        PlayerAnimationState::Jumping => StateFamily::JumpingFamily,
        PlayerAnimationState::Running => StateFamily::RunningFamily,
        PlayerAnimationState::Attacking(_, _) => StateFamily::AttackingFamily,
        PlayerAnimationState::Rolling => StateFamily::RollingFamily,
        PlayerAnimationState::Walking => StateFamily::WalkingFamily,
        PlayerAnimationState::Falling => StateFamily::FallingFamily,
    }
}

/// The set of discriminant families an in-flight attack may be cancelled
/// into, one flag per family.
#[derive(Clone, Copy, Debug, PartialEq, Eq, Structural)]
pub struct CancelTargets {
    pub tpose: bool,
    pub idling: bool,
    pub jumping: bool,
    pub running: bool,
    pub attacking: bool,
    pub rolling: bool,
    pub walking: bool,
    pub falling: bool,
}

impl CancelTargets {
    /// Whether the given family is among the permitted cancel targets.
    pub open spec fn spec_contains(self, f: StateFamily) -> bool {
        match f {
            StateFamily::TposeFamily => self.tpose,
            StateFamily::IdlingFamily => self.idling,
            StateFamily::JumpingFamily => self.jumping,
            StateFamily::RunningFamily => self.running,
            StateFamily::AttackingFamily => self.attacking,
            StateFamily::RollingFamily => self.rolling,
            StateFamily::WalkingFamily => self.walking,
            StateFamily::FallingFamily => self.falling,
        }
    }

    /// The empty target set: nothing may be cancelled into.
    pub open spec fn spec_none() -> CancelTargets {
        CancelTargets {
            tpose: false,
            idling: false,
            jumping: false,
            running: false,
            attacking: false,
            rolling: false,
            walking: false,
            falling: false,
        }
    }

    /// The targets a committed swing may be feinted into: a dodge roll, a
    /// jump, or the next hit of the combo.
    pub open spec fn spec_feint_targets() -> CancelTargets {
        CancelTargets {
            tpose: false,
            idling: false,
            jumping: true,
            running: false,
            attacking: true,
            rolling: true,
            walking: false,
            falling: false,
        }
    }

    /// Executable twin of `spec_contains`.
    pub fn contains(&self, f: StateFamily) -> (r: bool)
        ensures
            r == self.spec_contains(f),
    {
        match f {
            StateFamily::TposeFamily => self.tpose,
            StateFamily::IdlingFamily => self.idling,
            StateFamily::JumpingFamily => self.jumping,
            StateFamily::RunningFamily => self.running,
            StateFamily::AttackingFamily => self.attacking,
            StateFamily::RollingFamily => self.rolling,
            StateFamily::WalkingFamily => self.walking,
            StateFamily::FallingFamily => self.falling,
        }
    }

    /// Executable twin of `spec_none`.
    pub fn none() -> (r: CancelTargets)
        ensures
            r == CancelTargets::spec_none(),
    {
        CancelTargets {
            tpose: false,
            idling: false,
            jumping: false,
            running: false,
            attacking: false,
            rolling: false,
            walking: false,
            falling: false,
        }
    }

    /// Executable twin of `spec_feint_targets`.
    pub fn feint_targets() -> (r: CancelTargets)
        ensures
            r == CancelTargets::spec_feint_targets(),
    {
        CancelTargets {
            tpose: false,
            idling: false,
            jumping: true,
            running: false,
            attacking: true,
            rolling: true,
            walking: false,
            falling: false,
        }
    }
}

} // verus!

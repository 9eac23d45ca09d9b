use combat_core::resolver::blend_time_ms;
use combat_core::resolver::classify;
use combat_core::resolver::clip_for;
use combat_core::resolver::play_speed_permille;
use combat_core::resolver::repeats;
use combat_core::resolver::AnimatingDirective;
use combat_core::resolver::AnimatingState;
use combat_core::resolver::ClipId;
use combat_core::resolver::JumpPhase;
use combat_core::resolver::PhysicsAction;
use combat_core::resolver::PlaybackCommand;
use combat_core::resolver::BLEND_FALL_MS;
use combat_core::resolver::BLEND_IDLE_MS;
use combat_core::resolver::BLEND_VERY_FAST_MS;
use combat_core::resolver::ROLL_SPEED_PERMILLE;
use combat_core::state::AttackDirection;
use combat_core::state::PlayerAnimationState;

fn attacking(stage: u8, d: AttackDirection) -> PlayerAnimationState {
    PlayerAnimationState::Attacking(stage, d)
}

#[test]
fn attack_reads_machine_state_verbatim() {
    let s = classify(
        true,
        attacking(2, AttackDirection::Backward),
        PhysicsAction::Dash,
        true,
        9_999,
        false,
        false,
    );
    assert_eq!(s, attacking(2, AttackDirection::Backward));
}

#[test]
fn attack_flag_without_attacking_state_falls_back() {
    let s = classify(
        true,
        PlayerAnimationState::Idling,
        PhysicsAction::NoAction,
        true,
        0,
        false,
        false,
    );
    assert_eq!(s, attacking(0, AttackDirection::Forward));
}

#[test]
fn jump_phases_map_to_jump_fall_or_idle() {
    let phases_to_jumping = [
        JumpPhase::StartingJump,
        JumpPhase::SlowDownTooFastSlopeJump,
        JumpPhase::MaintainingJump,
        JumpPhase::StoppedMaintainingJump,
    ];
    for phase in phases_to_jumping {
        let s = classify(
            false,
            PlayerAnimationState::Idling,
            PhysicsAction::Jump(phase),
            true,
            0,
            false,
            false,
        );
        assert_eq!(s, PlayerAnimationState::Jumping);
    }
    let fall = classify(
        false,
        PlayerAnimationState::Idling,
        PhysicsAction::Jump(JumpPhase::FallSection),
        true,
        0,
        false,
        false,
    );
    assert_eq!(fall, PlayerAnimationState::Falling);
    let idle = classify(
        false,
        PlayerAnimationState::Idling,
        PhysicsAction::Jump(JumpPhase::NoJump),
        true,
        0,
        false,
        false,
    );
    assert_eq!(idle, PlayerAnimationState::Idling);
}

#[test]
fn dash_maps_to_rolling() {
    let s = classify(
        false,
        PlayerAnimationState::Idling,
        PhysicsAction::Dash,
        true,
        0,
        false,
        false,
    );
    assert_eq!(s, PlayerAnimationState::Rolling);
}

#[test]
fn airborne_without_action_is_falling_at_any_speed() {
    for speed in [0u32, 5, 1_000, 4_000_000] {
        let s = classify(
            false,
            PlayerAnimationState::Idling,
            PhysicsAction::NoAction,
            false,
            speed,
            false,
            true,
        );
        assert_eq!(s, PlayerAnimationState::Falling);
    }
}

#[test]
fn grounded_speed_picks_walk_run_idle() {
    let idle = classify(
        false,
        PlayerAnimationState::Idling,
        PhysicsAction::NoAction,
        true,
        10,
        false,
        true,
    );
    assert_eq!(idle, PlayerAnimationState::Idling);
    let walk = classify(
        false,
        PlayerAnimationState::Idling,
        PhysicsAction::NoAction,
        true,
        2_000,
        false,
        false,
    );
    assert_eq!(walk, PlayerAnimationState::Walking);
    let run = classify(
        false,
        PlayerAnimationState::Idling,
        PhysicsAction::NoAction,
        true,
        2_000,
        false,
        true,
    );
    assert_eq!(run, PlayerAnimationState::Running);
    // exhaustion downgrades a sprinting pace to the walking pose
    let tired = classify(
        false,
        PlayerAnimationState::Idling,
        PhysicsAction::NoAction,
        true,
        2_000,
        true,
        true,
    );
    assert_eq!(tired, PlayerAnimationState::Walking);
}

#[test]
fn repeated_discriminant_is_maintained() {
    let mut a = AnimatingState::new();
    let first = a.update_by_discriminant(PlayerAnimationState::Running);
    assert_eq!(first, AnimatingDirective::Alter { old_state: None });
    let second = a.update_by_discriminant(PlayerAnimationState::Running);
    assert_eq!(second, AnimatingDirective::Maintain);
}

#[test]
fn family_change_alters() {
    let mut a = AnimatingState::new();
    a.update_by_discriminant(PlayerAnimationState::Idling);
    let d = a.update_by_discriminant(PlayerAnimationState::Walking);
    assert_eq!(
        d,
        AnimatingDirective::Alter { old_state: Some(PlayerAnimationState::Idling) }
    );
}

#[test]
fn combo_stage_change_is_a_distinct_discriminant() {
    let mut a = AnimatingState::new();
    a.update_by_discriminant(attacking(0, AttackDirection::Forward));
    let d = a.update_by_discriminant(attacking(1, AttackDirection::Forward));
    assert_eq!(
        d,
        AnimatingDirective::Alter { old_state: Some(attacking(0, AttackDirection::Forward)) }
    );
}

#[test]
fn blend_table_ordered_pairs() {
    // first clip ever: per-target default
    assert_eq!(blend_time_ms(None, PlayerAnimationState::Idling), BLEND_IDLE_MS);
    // responsive pairs blend fastest
    assert_eq!(
        blend_time_ms(Some(PlayerAnimationState::Running), PlayerAnimationState::Jumping),
        BLEND_VERY_FAST_MS
    );
    assert_eq!(
        blend_time_ms(
            Some(attacking(0, AttackDirection::Forward)),
            attacking(1, AttackDirection::Forward),
        ),
        BLEND_VERY_FAST_MS
    );
    // running into jumping is faster than idling into jumping
    let from_run = blend_time_ms(Some(PlayerAnimationState::Running), PlayerAnimationState::Jumping);
    let from_idle = blend_time_ms(Some(PlayerAnimationState::Idling), PlayerAnimationState::Jumping);
    assert!(from_run < from_idle);
    assert_eq!(
        blend_time_ms(Some(PlayerAnimationState::Jumping), PlayerAnimationState::Falling),
        BLEND_VERY_FAST_MS
    );
    assert_eq!(blend_time_ms(Some(PlayerAnimationState::Tpose), PlayerAnimationState::Falling), BLEND_FALL_MS);
}

#[test]
fn each_combo_stage_has_its_own_clip() {
    assert_eq!(clip_for(attacking(0, AttackDirection::Forward)), ClipId::AttackClip);
    assert_eq!(clip_for(attacking(1, AttackDirection::Forward)), ClipId::Attack2Clip);
    assert_eq!(clip_for(attacking(2, AttackDirection::Forward)), ClipId::Attack3Clip);
    assert_eq!(clip_for(PlayerAnimationState::Walking), ClipId::WalkClip);
}

#[test]
fn attack_speed_grows_with_stage_and_backward_is_fastest() {
    // forward opener: 1.8 base at unit boost
    assert_eq!(play_speed_permille(attacking(0, AttackDirection::Forward)), 1_800);
    // forward second hit: 1.8 * 1.1
    assert_eq!(play_speed_permille(attacking(1, AttackDirection::Forward)), 1_980);
    // backward finisher: 2.0 * 1.3
    assert_eq!(play_speed_permille(attacking(2, AttackDirection::Backward)), 2_600);
    // side attacks are slightly slower than forward
    assert!(
        play_speed_permille(attacking(0, AttackDirection::Left))
            < play_speed_permille(attacking(0, AttackDirection::Forward))
    );
    assert_eq!(play_speed_permille(PlayerAnimationState::Rolling), ROLL_SPEED_PERMILLE);
    assert_eq!(play_speed_permille(PlayerAnimationState::Tpose), 0);
}

#[test]
fn looping_clips_repeat() {
    assert!(repeats(PlayerAnimationState::Idling));
    assert!(repeats(PlayerAnimationState::Walking));
    assert!(repeats(PlayerAnimationState::Running));
    assert!(repeats(PlayerAnimationState::Falling));
    assert!(!repeats(PlayerAnimationState::Jumping));
    assert!(!repeats(attacking(0, AttackDirection::Forward)));
    assert!(!repeats(PlayerAnimationState::Rolling));
}

#[test]
fn maintained_run_refreshes_walk_when_exhausted() {
    let mut a = AnimatingState::new();
    a.update_by_discriminant(PlayerAnimationState::Running);
    let keep = a.resolve_playback(PlayerAnimationState::Running, false);
    assert_eq!(keep, PlaybackCommand::KeepCurrent);
    let refresh = a.resolve_playback(PlayerAnimationState::Running, true);
    assert_eq!(refresh, PlaybackCommand::RefreshExhaustedWalk);
}

#[test]
fn altered_discriminant_plays_new_clip() {
    let mut a = AnimatingState::new();
    a.update_by_discriminant(PlayerAnimationState::Idling);
    let cmd = a.resolve_playback(PlayerAnimationState::Walking, false);
    assert_eq!(
        cmd,
        PlaybackCommand::Play {
            clip: ClipId::WalkClip,
            blend_ms: BLEND_VERY_FAST_MS,
            speed_permille: 1_000,
            repeat: true,
        }
    );
}

use combat_core::feeder::attack_duration_ms;
use combat_core::feeder::determine_attack_direction;
use combat_core::feeder::locomotion_command;
use combat_core::feeder::stamina_tick;
use combat_core::feeder::DashHeading;
use combat_core::feeder::InputState;
use combat_core::feeder::Player;
use combat_core::feeder::ATTACK_COST_BASE;
use combat_core::feeder::BASE_SPEED_MILLI;
use combat_core::feeder::FLOAT_HEIGHT_MILLI;
use combat_core::machine::CANCEL_COMMIT_MS;
use combat_core::machine::COMBO_WINDOW_MS;
use combat_core::state::AttackDirection;
use combat_core::state::PlayerAnimationState;

fn no_input() -> InputState {
    InputState {
        forward: false,
        backward: false,
        left: false,
        right: false,
        run_held: false,
        jump_held: false,
        dash_held: false,
        attack_pressed: false,
    }
}

#[test]
fn attack_direction_single_key_precedence() {
    assert_eq!(
        determine_attack_direction(true, false, false, false),
        AttackDirection::Forward
    );
    assert_eq!(
        determine_attack_direction(false, true, false, false),
        AttackDirection::Backward
    );
    assert_eq!(
        determine_attack_direction(false, false, true, false),
        AttackDirection::Left
    );
    assert_eq!(
        determine_attack_direction(false, false, false, true),
        AttackDirection::Right
    );
}

#[test]
fn attack_direction_defaults_forward() {
    // no keys, and conflicting keys, both default to a forward attack
    assert_eq!(
        determine_attack_direction(false, false, false, false),
        AttackDirection::Forward
    );
    assert_eq!(
        determine_attack_direction(true, false, true, false),
        AttackDirection::Forward
    );
    assert_eq!(
        determine_attack_direction(true, true, false, false),
        AttackDirection::Forward
    );
}

#[test]
fn attack_durations_shrink_with_stage() {
    assert_eq!(attack_duration_ms(0), 1_000);
    assert_eq!(attack_duration_ms(1), 800);
    assert_eq!(attack_duration_ms(2), 600);
}

#[test]
fn locomotion_zero_intent_is_explicit_standstill() {
    let p = Player::new();
    let cmd = locomotion_command(&p.stamina, no_input());
    assert_eq!(cmd.intent.forward_axis, 0);
    assert_eq!(cmd.intent.right_axis, 0);
    assert!(!cmd.face_opposite_movement);
    assert_eq!(cmd.speed_milli, BASE_SPEED_MILLI);
    assert_eq!(cmd.float_height_milli, FLOAT_HEIGHT_MILLI);
}

#[test]
fn locomotion_axes_follow_keys() {
    let p = Player::new();
    let mut input = no_input();
    input.forward = true;
    input.left = true;
    let cmd = locomotion_command(&p.stamina, input);
    assert_eq!(cmd.intent.forward_axis, 1);
    assert_eq!(cmd.intent.right_axis, -1);
    assert!(cmd.face_opposite_movement);
}

#[test]
fn locomotion_conflicting_keys_cancel() {
    let p = Player::new();
    let mut input = no_input();
    input.forward = true;
    input.backward = true;
    let cmd = locomotion_command(&p.stamina, input);
    assert_eq!(cmd.intent.forward_axis, 0);
}

#[test]
fn sprint_doubles_speed_with_stamina_in_reserve() {
    let p = Player::new();
    let mut input = no_input();
    input.forward = true;
    input.run_held = true;
    let cmd = locomotion_command(&p.stamina, input);
    assert_eq!(cmd.speed_milli, 8_000);
}

#[test]
fn exhaustion_halves_speed_and_beats_sprinting() {
    let mut p = Player::new();
    p.stamina.exhausted = true;
    p.stamina.exhaustion_timer = 1_000;
    let mut input = no_input();
    input.forward = true;
    input.run_held = true;
    let cmd = locomotion_command(&p.stamina, input);
    assert_eq!(cmd.speed_milli, 2_000);
}

#[test]
fn sprinting_drains_stamina() {
    let mut p = Player::new();
    // 15_000 milli-points per second over 200 ms
    stamina_tick(&mut p.stamina, true, true, 200);
    assert_eq!(p.stamina.current, 97_000);
}

#[test]
fn jump_requires_ground() {
    let mut p = Player::new();
    assert!(!p.feed_jump(true, false));
    assert_eq!(p.stamina.current, 100_000);
    assert!(p.feed_jump(true, true));
    assert_eq!(p.stamina.current, 99_000);
}

#[test]
fn jump_refused_when_exhausted() {
    let mut p = Player::new();
    p.stamina.exhausted = true;
    p.stamina.exhaustion_timer = 1_000;
    assert!(!p.feed_jump(true, true));
}

#[test]
fn dash_blocked_while_attacking() {
    let mut p = Player::new();
    p.is_attacking = true;
    assert_eq!(p.feed_dash(true, true), None);
}

#[test]
fn dash_heading_falls_back_to_camera() {
    let mut p = Player::new();
    assert_eq!(p.feed_dash(true, true), Some(DashHeading::MovementDirection));
    assert_eq!(p.feed_dash(true, false), Some(DashHeading::CameraForward));
}

#[test]
fn attack_spends_base_cost_and_locks_machine() {
    let mut p = Player::new();
    let mut input = no_input();
    input.attack_pressed = true;
    assert!(p.try_attack(input));
    assert_eq!(p.stamina.current, 100_000 - ATTACK_COST_BASE);
    assert!(!p.machine.interruptible);
    assert!(p.is_attacking);
    assert_eq!(p.attack_timer, 1_000);
    assert!(!p.cancellation.cancelable);
    assert_eq!(p.cancellation.current_time, 0);
}

#[test]
fn later_stages_cost_more_stamina() {
    let mut p = Player::new();
    p.machine.current_state = PlayerAnimationState::Attacking(0, AttackDirection::Forward);
    p.machine.combo_window_active = true;
    p.machine.combo_window_timer = 400;
    p.is_attacking = true;
    let mut input = no_input();
    input.attack_pressed = true;
    assert!(p.try_attack(input));
    // stage 1: base 15_000 plus one increment of 5_000
    assert_eq!(p.stamina.current, 80_000);
    assert_eq!(p.attack_timer, 800);
}

#[test]
fn swing_arms_cancellation_at_commit_point() {
    let mut p = Player::new();
    let mut input = no_input();
    input.attack_pressed = true;
    assert!(p.try_attack(input));
    p.advance_attack_state(CANCEL_COMMIT_MS - 100);
    assert!(!p.cancellation.cancelable);
    p.advance_attack_state(100);
    assert!(p.cancellation.cancelable);
    assert_eq!(p.cancellation.cancelable_after_time, CANCEL_COMMIT_MS);
    assert!(p.cancellation.can_cancel_into.rolling);
    assert!(p.cancellation.can_cancel_into.jumping);
    assert!(p.cancellation.can_cancel_into.attacking);
    assert!(!p.cancellation.can_cancel_into.walking);
}

#[test]
fn swing_end_opens_combo_window() {
    let mut p = Player::new();
    let mut input = no_input();
    input.attack_pressed = true;
    assert!(p.try_attack(input));
    // run the 1000 ms swing out in ten 100 ms ticks
    for _ in 0..10 {
        p.advance_attack_state(100);
    }
    assert!(!p.is_attacking);
    assert!(p.machine.interruptible);
    assert!(p.machine.combo_window_active);
    // the machine's own clock already consumed the expiry tick's 100 ms
    assert_eq!(p.machine.combo_window_timer, COMBO_WINDOW_MS - 100);
    assert!(!p.cancellation.cancelable);
    assert_eq!(p.cancellation.current_time, 0);
}

#[test]
fn finisher_end_resets_combo_instead_of_window() {
    let mut p = Player::new();
    p.machine.current_state = PlayerAnimationState::Attacking(2, AttackDirection::Forward);
    p.machine.combo_count = 2;
    p.machine.interruptible = false;
    p.is_attacking = true;
    p.attack_timer = 100;
    p.advance_attack_state(100);
    assert!(!p.is_attacking);
    assert!(!p.machine.combo_window_active);
    assert_eq!(p.machine.combo_count, 0);
}

#[test]
fn feeder_tick_runs_all_phases() {
    let mut p = Player::new();
    let mut input = no_input();
    input.attack_pressed = true;
    let acts = p.feeder_tick(input, true, 16);
    assert!(acts.attack_started);
    assert!(!acts.jump);
    assert_eq!(acts.dash, None);
    assert!(p.is_attacking);
    assert_eq!(p.machine.transition_progress, 0);
}

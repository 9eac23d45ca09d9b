use combat_core::feeder::InputState;
use combat_core::feeder::Player;
use combat_core::resolver::classify;
use combat_core::resolver::AnimatingState;
use combat_core::resolver::ClipId;
use combat_core::resolver::PhysicsAction;
use combat_core::resolver::PlaybackCommand;
use combat_core::state::AttackDirection;
use combat_core::state::PlayerAnimationState;

fn no_input() -> InputState {
    InputState {
        forward: false,
        backward: false,
        left: false,
        right: false,
        run_held: false,
        jump_held: false,
        dash_held: false,
        attack_pressed: false,
    }
}

fn attacking(stage: u8, d: AttackDirection) -> PlayerAnimationState {
    PlayerAnimationState::Attacking(stage, d)
}

#[test]
fn full_stamina_first_attack() {
    // character at full stamina presses attack once
    let mut p = Player::new();
    let mut input = no_input();
    input.attack_pressed = true;
    let acts = p.feeder_tick(input, true, 16);
    assert!(acts.attack_started);
    assert_eq!(p.machine.current_state, attacking(0, AttackDirection::Forward));
    // base attack cost of 15 points, on top of the resting regeneration
    // earned earlier in the same tick (30 points/s over 16 ms is 0.48)
    assert_eq!(p.stamina.current, 100_000 - 15_000);
    assert!(!p.machine.interruptible);
    // the resolver sees the accepted attack within the same tick
    let mut anim = AnimatingState::new();
    let observed = classify(
        p.is_attacking,
        p.machine.current_state,
        PhysicsAction::NoAction,
        true,
        0,
        p.stamina.exhausted,
        false,
    );
    let cmd = anim.resolve_playback(observed, p.stamina.exhausted);
    match cmd {
        PlaybackCommand::Play { clip, .. } => assert_eq!(clip, ClipId::AttackClip),
        other => panic!("expected a play command, got {:?}", other),
    }
}

#[test]
fn mid_combo_second_press_advances_chain() {
    // stage 0 finished, combo window open, attack pressed again in time
    let mut p = Player::new();
    let mut input = no_input();
    input.attack_pressed = true;
    assert!(p.feeder_tick(input, true, 16).attack_started);
    // let the 1000 ms swing run out; the window opens at its end
    for _ in 0..100 {
        p.feeder_tick(no_input(), true, 10);
    }
    assert!(!p.is_attacking);
    assert!(p.machine.combo_window_active);
    // second press, steering left
    let mut second = no_input();
    second.attack_pressed = true;
    second.left = true;
    let acts = p.feeder_tick(second, true, 10);
    assert!(acts.attack_started);
    assert_eq!(p.machine.current_state, attacking(1, AttackDirection::Left));
    assert_eq!(p.machine.combo_count, 1);
    assert!(!p.machine.combo_window_active);
}

#[test]
fn combo_window_expires_without_second_press() {
    // window left open with no follow-up: it closes, and since the attack
    // has finished (machine interruptible) the combo count resets
    let mut p = Player::new();
    let mut input = no_input();
    input.attack_pressed = true;
    assert!(p.feeder_tick(input, true, 16).attack_started);
    for _ in 0..100 {
        p.feeder_tick(no_input(), true, 10);
    }
    assert!(p.machine.combo_window_active);
    assert!(p.machine.interruptible);
    // run past the rest of the 500 ms window
    for _ in 0..60 {
        p.feeder_tick(no_input(), true, 10);
    }
    assert!(!p.machine.combo_window_active);
    assert_eq!(p.machine.combo_count, 0);
}

#[test]
fn poor_stamina_attack_is_rejected_without_mutation() {
    // stamina at 5 points against an attack cost of 15
    let mut p = Player::new();
    p.stamina.current = 5_000;
    let machine_before = p.machine;
    let cancellation_before = p.cancellation;
    let mut input = no_input();
    input.attack_pressed = true;
    assert!(!p.try_attack(input));
    assert_eq!(p.stamina.current, 5_000);
    assert_eq!(p.machine, machine_before);
    assert_eq!(p.cancellation, cancellation_before);
    assert!(!p.is_attacking);
    assert_eq!(p.machine.current_state, PlayerAnimationState::Idling);
}

#[test]
fn airborne_resolves_to_falling() {
    // grounded false, no discrete action named: falling at any speed
    for speed in [0u32, 100, 50_000] {
        let observed = classify(
            false,
            PlayerAnimationState::Idling,
            PhysicsAction::NoAction,
            false,
            speed,
            false,
            false,
        );
        assert_eq!(observed, PlayerAnimationState::Falling);
    }
}

#[test]
fn cancel_committed_swing_into_roll() {
    // a swing past its commitment point may be feinted into a dodge
    let mut p = Player::new();
    let mut input = no_input();
    input.attack_pressed = true;
    assert!(p.feeder_tick(input, true, 16).attack_started);
    // 300 ms into the swing the cancellation window arms
    for _ in 0..30 {
        p.feeder_tick(no_input(), true, 10);
    }
    assert!(p.is_attacking);
    assert!(p.cancellation.cancelable);
    assert!(!p.machine.interruptible);
    let accepted = p.machine.try_transition(
        PlayerAnimationState::Rolling,
        Some(&p.cancellation.clone()),
    );
    assert!(accepted);
    assert_eq!(p.machine.current_state, PlayerAnimationState::Rolling);
}

#[test]
fn exhaustion_run_drains_into_slow_walk() {
    // sprinting drains the bar to the low-water mark, exhaustion sets in,
    // and the pace drops to the exhausted walk until the timer clears
    let mut p = Player::new();
    let mut sprint = no_input();
    sprint.forward = true;
    sprint.run_held = true;
    let mut ticks = 0;
    while !p.stamina.exhausted && ticks < 2_000 {
        p.feeder_tick(sprint, true, 10);
        ticks += 1;
    }
    assert!(p.stamina.exhausted);
    assert!(p.stamina.current <= p.stamina.max / 10);
    let cmd = combat_core::feeder::locomotion_command(&p.stamina, sprint);
    assert_eq!(cmd.speed_milli, 2_000);
    // after the recovery delay the debuff clears
    for _ in 0..400 {
        p.feeder_tick(no_input(), true, 10);
    }
    assert!(!p.stamina.exhausted);
}

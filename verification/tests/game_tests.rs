use portia::fighting_game::{
    map_input_to_logical_input, CharacterControl, CharacterState, Input, InputPoller,
    LogicalInput, INPUT_BUFFER_SIZE,
};
use portia::idea_for_game::character_stats::{
    AirStates, CharacterStats, DirectionalGroundStates, GroundStates, RequiredStates, Skin,
    SpecialStates, Stats,
};
use portia::idea_for_game::game::{
    add_with_max, checked_decrement, sub_with_min, Character, Direction, GameRules,
};
use portia::input::{Input as EngineInput, Key, PressState};

fn key(key: Key, state: PressState) -> EngineInput {
    EngineInput::Key { key, state }
}

#[test]
fn poller_starts_neutral() {
    let mut poller = InputPoller::new();
    let input = poller.poll(&vec![]);
    assert_eq!(input, Input::default());
}

#[test]
fn poller_up_wins_over_down_and_release_centres() {
    let mut poller = InputPoller::new();
    let input = poller.poll(&vec![key(Key::Down, PressState::Pressed), key(Key::Up, PressState::Pressed)]);
    assert_eq!(input.move_y_axis, 127);
    let input = poller.poll(&vec![key(Key::Up, PressState::Released)]);
    assert_eq!(input.move_y_axis, -128);
    let input = poller.poll(&vec![key(Key::Down, PressState::Released)]);
    assert_eq!(input.move_y_axis, 0);
}

#[test]
fn poller_last_event_for_a_key_wins_and_other_events_are_ignored() {
    let mut poller = InputPoller::new();
    let input = poller.poll(&vec![
        key(Key::Left, PressState::Pressed),
        EngineInput::Tick(4),
        key(Key::Left, PressState::Released),
        key(Key::Right, PressState::Pressed),
    ]);
    assert_eq!(input.move_x_axis, 127);
    let input = poller.poll(&vec![key(Key::Right, PressState::Released), key(Key::Left, PressState::Pressed)]);
    assert_eq!(input.move_x_axis, -128);
}

#[test]
fn poller_jump_stays_pressed() {
    let mut poller = InputPoller::new();
    let input = poller.poll(&vec![key(Key::Space, PressState::Pressed)]);
    assert!(input.jump_pressed);
    let input = poller.poll(&vec![key(Key::Space, PressState::Released)]);
    assert!(input.jump_pressed);
}

#[test]
fn logical_input_follows_axis_signs() {
    let mut input = Input::default();
    assert!(!map_input_to_logical_input(input).is_moving());
    input.move_x_axis = -3;
    input.move_y_axis = 9;
    let l = map_input_to_logical_input(input);
    assert_eq!(l, LogicalInput { up_held: true, down_held: false, left_held: true, right_held: false });
    assert!(l.is_moving());
}

fn right() -> Input {
    let mut i = Input::default();
    i.move_x_axis = 127;
    i
}

#[test]
fn add_input_shifts_the_buffer() {
    let mut c = CharacterControl::new(2, 8);
    let mut i = Input::default();
    i.move_y_axis = 5;
    c.add_input(i);
    assert_eq!(c.input, i);
    assert_eq!(c.prev_inputs[INPUT_BUFFER_SIZE - 1], i);
    assert_eq!(c.prev_inputs[INPUT_BUFFER_SIZE - 2], Input::default());
    c.add_input(right());
    assert_eq!(c.prev_inputs[INPUT_BUFFER_SIZE - 1], right());
    assert_eq!(c.prev_inputs[INPUT_BUFFER_SIZE - 2], i);
}

#[test]
fn idle_character_walks_then_dashes_after_a_tap() {
    let mut c = CharacterControl::new(2, 8);
    // Without input the character stays idle.
    c.add_input(Input::default());
    c.transition();
    assert_eq!(c.state, CharacterState::Idle);
    // Moving starts a walk.
    c.add_input(right());
    let l = c.transition();
    assert!(l.right_held);
    assert_eq!(c.state, CharacterState::Walking);
    // Holding on keeps walking: the remembered frames right before the newest one hold
    // the direction too.
    c.add_input(right());
    c.transition();
    assert_eq!(c.state, CharacterState::Walking);
}

#[test]
fn walking_character_dashes_after_empty_frames() {
    let mut c = CharacterControl::new(2, 8);
    c.add_input(right());
    c.transition();
    assert_eq!(c.state, CharacterState::Walking);
    // A tap, four neutral frames, then another tap: counting back from the newest
    // frame, the earlier tap is preceded by four empty frames (more than three).
    for _ in 0..4 {
        c.add_input(Input::default());
    }
    c.add_input(right());
    c.state = CharacterState::Walking;
    assert!(c.should_dash());
    let mut moving = Input::default();
    moving.move_y_axis = 1;
    c.input = moving;
    c.transition();
    assert_eq!(c.state, CharacterState::Dashing);
}

#[test]
fn three_empty_frames_are_not_enough_to_dash() {
    let mut c = CharacterControl::new(2, 8);
    c.add_input(right());
    for _ in 0..3 {
        c.add_input(Input::default());
    }
    assert!(!c.should_dash());
}

#[test]
fn jump_needs_a_new_press_and_jumps_left() {
    let mut c = CharacterControl::new(1, 8);
    let mut jump = right();
    jump.jump_pressed = true;
    c.add_input(jump);
    c.transition();
    assert_eq!(c.jumps, 1);
    assert_eq!(c.jump_frames, 8);
    // Held jump does not jump again, nor do exhausted jumps.
    c.add_input(jump);
    c.transition();
    assert_eq!(c.jumps, 1);
    assert!(c.advance_jump());
    assert_eq!(c.jump_frames, 7);
    assert!(c.is_jumpable() == false);
}

#[test]
fn advance_jump_stops_at_zero() {
    let mut c = CharacterControl::new(1, 1);
    assert!(!c.advance_jump());
    assert_eq!(c.jump_frames, 0);
}

#[test]
fn checked_decrement_stops_at_zero() {
    assert_eq!(checked_decrement(0), 0);
    assert_eq!(checked_decrement(1), 0);
    assert_eq!(checked_decrement(10), 9);
}

#[test]
fn sub_with_min_clamps_at_min() {
    assert_eq!(sub_with_min(5, 2, 1), 3);
    assert_eq!(sub_with_min(1, 2, 1), 1);
    assert_eq!(sub_with_min(0, 2, 1), 1);
}

#[test]
fn add_with_max_caps() {
    assert_eq!(add_with_max(5, 2, 10), 7);
    assert_eq!(add_with_max(5, 7, 10), 10);
    assert_eq!(add_with_max(0, 0, 0), 0);
}

fn stats(shield_health: u32, num_jumps: u32, shielding: u32) -> CharacterStats {
    let d = || DirectionalGroundStates { forward: 0, down: 0, up: 0 };
    CharacterStats {
        name: "test".to_string(),
        primary_skin: Skin { file: String::new(), thumbnail: String::new() },
        alternate_skins: vec![],
        stats: Stats {
            weight: 0,
            gravity_percentage: 0,
            walk_speed: 0,
            run_speed: 0,
            air_move_speed: 0,
            air_acceleration: 0,
            jump_velocity: 0,
            short_hop_velocity: 0,
            fast_fall_speed: 0,
            shield_health,
            num_jumps,
        },
        required_states: RequiredStates {
            jump: 0,
            special: SpecialStates { forward_special: 0, up_special: 0, down_special: 0, neutral_special: 0 },
            ground: GroundStates {
                tilts: d(),
                smashes: d(),
                jab: 0,
                idle: 0,
                crouch: 0,
                shielding,
                stunned: 0,
                dashing: 0,
                dash_attack: 0,
                grabbed: 0,
            },
            air: AirStates {
                foward_air: 0,
                back_air: 0,
                up_air: 0,
                down_air: 0,
                air_dodge: 0,
                neutral_air: 0,
                helpless: 0,
            },
        },
        states: vec![],
    }
}

fn character() -> Character {
    Character {
        rules: GameRules { shield_regen: 3, num_lives: 3 },
        character_data_index: 0,
        remaining_shield: 5,
        remaining_lives: 3,
        damage: 0,
        remaining_jumps: 0,
        in_air: false,
        facing: Direction::Right,
        position: (0, 0),
        velocity: (0, 0),
        state_frame: 0,
        state_id: 1,
        remaining_helpless: 1,
        remaining_stun: 0,
        remaining_grounded: 2,
        remaining_invincibility: 4,
        remaining_recovery: 0,
        remaining_blockstun: 0,
    }
}

#[test]
fn tick_counts_down_regenerates_and_restores_jumps() {
    let s = stats(7, 2, 9);
    let mut c = character();
    c.tick(&s);
    assert_eq!(c.remaining_helpless, 0);
    assert_eq!(c.remaining_grounded, 1);
    assert_eq!(c.remaining_invincibility, 3);
    assert_eq!(c.remaining_shield, 7);
    // Still grounded frames left: helpless, so no jumps back.
    assert_eq!(c.remaining_jumps, 0);
    c.tick(&s);
    assert_eq!(c.remaining_grounded, 0);
    assert_eq!(c.remaining_jumps, 2);
    assert_eq!(c.remaining_shield, 7);
}

#[test]
fn shielding_character_does_not_regenerate() {
    let s = stats(7, 2, 1);
    let mut c = character();
    c.tick(&s);
    assert_eq!(c.remaining_shield, 5);
    assert!(c.is_helpless_state(&s));
}

#[test]
fn airborne_character_keeps_its_jumps() {
    let s = stats(7, 2, 9);
    let mut c = character();
    c.in_air = true;
    c.remaining_helpless = 0;
    c.remaining_grounded = 0;
    c.tick(&s);
    assert_eq!(c.remaining_jumps, 0);
    assert!(!c.is_helpless_state(&s));
}

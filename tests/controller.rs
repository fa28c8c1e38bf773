use dino_controller::{
    camera_follow_player, jump_reset, Character, ContactEvent, InputSnapshot, Velocity,
    VelocityCommand, JUMP_SPEED, PLAYER_SPEED,
};

const PLAYER: u64 = 7;
const FLOOR: u64 = 3;
const WALL: u64 = 9;

fn keys(left: bool, right: bool, jump: bool) -> InputSnapshot {
    InputSnapshot::new(left, right, jump)
}

fn start(a: u64, b: u64) -> ContactEvent {
    ContactEvent { entity_a: a, entity_b: b, started: true }
}

fn stop(a: u64, b: u64) -> ContactEvent {
    ContactEvent { entity_a: a, entity_b: b, started: false }
}

#[test]
fn player_starts_grounded_with_its_speeds() {
    let c = Character::player(PLAYER);
    assert!(!c.is_airborne());
    assert_eq!(c.entity(), PLAYER);
    assert_eq!(c.horizontal_speed(), 100);
    assert_eq!(c.jump_speed(), 150);
    assert_eq!(PLAYER_SPEED, 100);
    assert_eq!(JUMP_SPEED, 150);
}

#[test]
fn only_left_moves_left_at_full_speed() {
    let c = Character::player(PLAYER);
    assert_eq!(c.horizontal_command(keys(true, false, false)), Some(-100));
    let v = VelocityCommand { horizontal: c.horizontal_command(keys(true, false, false)), vertical: None }
        .apply(Velocity { x: 40, y: -12 });
    assert_eq!(v, Velocity { x: -100, y: -12 });
}

#[test]
fn only_right_moves_right_at_full_speed() {
    let c = Character::new(PLAYER, 250, 10);
    assert_eq!(c.horizontal_command(keys(false, true, false)), Some(250));
    assert_eq!(c.horizontal_command(keys(false, true, true)), Some(250));
}

#[test]
fn both_or_neither_keeps_previous_horizontal_velocity() {
    let mut c = Character::player(PLAYER);
    assert_eq!(c.horizontal_command(keys(true, true, false)), None);
    assert_eq!(c.horizontal_command(keys(false, false, false)), None);
    let cmd = c.control(keys(true, true, false));
    assert_eq!(cmd, VelocityCommand { horizontal: None, vertical: None });
    assert_eq!(cmd.apply(Velocity { x: 37, y: 5 }), Velocity { x: 37, y: 5 });
}

#[test]
fn largest_speed_is_negated_exactly() {
    let c = Character::new(PLAYER, u32::MAX, u32::MAX);
    assert_eq!(c.horizontal_command(keys(true, false, false)), Some(-(u32::MAX as i64)));
}

#[test]
fn grounded_jump_sets_vertical_speed_and_airborne() {
    let mut c = Character::player(PLAYER);
    assert_eq!(c.jump(keys(false, false, true)), Some(150));
    assert!(c.is_airborne());
    let cmd = VelocityCommand { horizontal: None, vertical: Some(150) };
    assert_eq!(cmd.apply(Velocity { x: 20, y: -3 }), Velocity { x: 20, y: 150 });
}

#[test]
fn airborne_jump_has_no_effect() {
    let mut c = Character::player(PLAYER);
    assert!(c.request_jump());
    assert_eq!(c.jump(keys(false, false, true)), None);
    assert!(c.is_airborne());
    let cmd = c.control(keys(false, false, true));
    assert_eq!(cmd, VelocityCommand { horizontal: None, vertical: None });
    assert!(!c.request_jump());
}

#[test]
fn no_jump_key_no_jump() {
    let mut c = Character::player(PLAYER);
    assert_eq!(c.jump(keys(true, false, false)), None);
    assert!(!c.is_airborne());
}

#[test]
fn control_combines_both_axes() {
    let mut c = Character::player(PLAYER);
    let cmd = c.control(keys(false, true, true));
    assert_eq!(cmd, VelocityCommand { horizontal: Some(100), vertical: Some(150) });
    assert!(c.is_airborne());
}

#[test]
fn contact_start_naming_character_grounds_it() {
    let mut c = Character::player(PLAYER);
    c.request_jump();
    c.process_contacts(&vec![start(FLOOR, PLAYER)]);
    assert!(!c.is_airborne());
    c.request_jump();
    c.process_contacts(&vec![start(PLAYER, FLOOR)]);
    assert!(!c.is_airborne());
}

#[test]
fn separation_and_other_bodies_are_ignored() {
    let mut c = Character::player(PLAYER);
    c.request_jump();
    c.process_contacts(&vec![stop(FLOOR, PLAYER), start(FLOOR, WALL), stop(PLAYER, WALL)]);
    assert!(c.is_airborne());
    c.process_contacts(&vec![]);
    assert!(c.is_airborne());
}

#[test]
fn several_contact_starts_in_one_tick_ground_once() {
    let mut c = Character::player(PLAYER);
    c.request_jump();
    c.process_contacts(&vec![start(FLOOR, PLAYER), start(PLAYER, WALL), stop(FLOOR, PLAYER)]);
    assert!(!c.is_airborne());
    c.process_contacts(&vec![start(FLOOR, PLAYER), start(PLAYER, WALL)]);
    assert!(!c.is_airborne());
}

#[test]
fn side_contact_also_grounds() {
    let mut c = Character::player(PLAYER);
    c.request_jump();
    c.process_contacts(&vec![start(WALL, PLAYER)]);
    assert!(!c.is_airborne());
}

#[test]
fn jump_reset_drains_queue_into_every_character() {
    let mut a = Character::player(PLAYER);
    let mut b = Character::player(11);
    let mut d = Character::player(12);
    a.request_jump();
    b.request_jump();
    let mut characters = vec![a, b, d];
    let mut queue = vec![start(FLOOR, PLAYER), stop(FLOOR, 11)];
    jump_reset(&mut characters, &mut queue);
    assert!(queue.is_empty());
    assert!(!characters[0].is_airborne());
    assert!(characters[1].is_airborne());
    assert!(!characters[2].is_airborne());
    d.report_ground_contact();
    assert!(!d.is_airborne());
}

#[test]
fn jump_then_quiet_ticks_then_landing_then_jump() {
    let mut c = Character::player(PLAYER);
    let cmd = c.control(keys(false, false, true));
    assert_eq!(cmd.vertical, Some(150));
    assert!(c.is_airborne());
    for _ in 0..5 {
        let cmd = c.control(keys(false, false, true));
        assert_eq!(cmd.vertical, None);
        c.process_contacts(&vec![]);
        assert!(c.is_airborne());
    }
    c.process_contacts(&vec![start(FLOOR, PLAYER)]);
    assert!(!c.is_airborne());
    let cmd = c.control(keys(false, false, true));
    assert_eq!(cmd.vertical, Some(150));
    assert!(c.is_airborne());
}

#[test]
fn no_second_jump_in_next_tick_without_contact() {
    let mut c = Character::player(PLAYER);
    assert_eq!(c.jump(keys(false, false, true)), Some(150));
    c.process_contacts(&vec![stop(FLOOR, PLAYER), start(FLOOR, WALL)]);
    assert_eq!(c.jump(keys(false, false, true)), None);
    c.process_contacts(&vec![start(PLAYER, FLOOR)]);
    assert_eq!(c.jump(keys(false, false, true)), Some(150));
}

#[test]
fn cameras_track_character_every_tick() {
    let mut cameras: Vec<f32> = vec![0.0, -4.5];
    for x in [0.0f32, 0.0, 12.25, 30.5, -8.0] {
        camera_follow_player(&mut cameras, &vec![x]);
        assert_eq!(cameras, vec![x, x]);
    }
}

#[test]
fn cameras_without_character_stay_put() {
    let mut cameras: Vec<f32> = vec![3.0, -4.5];
    camera_follow_player(&mut cameras, &vec![]);
    assert_eq!(cameras, vec![3.0, -4.5]);
    let mut none: Vec<i64> = vec![];
    camera_follow_player(&mut none, &vec![5]);
    assert!(none.is_empty());
}

#[test]
fn cameras_follow_last_of_several_characters() {
    let mut cameras: Vec<i64> = vec![1, 2, 3];
    camera_follow_player(&mut cameras, &vec![10, 20]);
    assert_eq!(cameras, vec![20, 20, 20]);
}

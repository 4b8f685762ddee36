use chase_me::enemy::{Colour, Enemy, EnemyState};
use chase_me::movement::{
    bounded_movement, chase_movement, chase_target, closest_target, get_magnitude,
    integrate_axis, player_movement, squared_distance, thrust_over_mass, Body, Chase, Field,
    Momentum, MoveKeys, Vec2,
};

fn keys(up: bool, down: bool, left: bool, right: bool) -> MoveKeys {
    MoveKeys { up, down, left, right }
}

fn still_at(x: i64, y: i64) -> Body {
    Body { position: Vec2 { x, y }, velocity: Vec2 { x: 0, y: 0 } }
}

fn player_momentum() -> Momentum {
    Momentum::new(8_000, 1_300, 15_000)
}

#[test]
fn momentum_new_keeps_its_arguments() {
    let m = Momentum::new(1, 2, 3);
    assert_eq!(m, Momentum { max_speed: 1, mass: 2, thrust: 3 });
    assert!(m.is_valid());
    assert!(!Momentum::new(1, 0, 3).is_valid());
    assert!(!Momentum::new(-1, 1, 3).is_valid());
}

#[test]
fn push_is_thrust_over_mass() {
    assert_eq!(thrust_over_mass(&player_momentum()), 11_538);
    assert_eq!(thrust_over_mass(&Momentum::new(10, 2_000, 10_000)), 5_000);
}

#[test]
fn one_key_accelerates_along_its_axis() {
    let mut body = still_at(0, 0);
    player_movement(&keys(true, false, false, false), &player_momentum(), &mut body, 16);
    assert_eq!(body.velocity, Vec2 { x: 0, y: 184 });
    assert_eq!(body.position, Vec2 { x: 0, y: 184 });
    let mut body = still_at(0, 0);
    player_movement(&keys(false, false, true, false), &player_momentum(), &mut body, 16);
    assert_eq!(body.velocity, Vec2 { x: -184, y: 0 });
    assert_eq!(body.position, Vec2 { x: -184, y: 0 });
}

#[test]
fn opposite_keys_cancel() {
    let mut body = Body { position: Vec2 { x: 10, y: 20 }, velocity: Vec2 { x: 5, y: -7 } };
    player_movement(&keys(true, true, true, true), &player_momentum(), &mut body, 16);
    assert_eq!(body.velocity, Vec2 { x: 5, y: -7 });
    assert_eq!(body.position, Vec2 { x: 15, y: 13 });
}

#[test]
fn no_key_lets_the_player_coast() {
    let mut body = Body { position: Vec2 { x: 0, y: 0 }, velocity: Vec2 { x: 100, y: 200 } };
    player_movement(&keys(false, false, false, false), &player_momentum(), &mut body, 1_000);
    assert_eq!(body.velocity, Vec2 { x: 100, y: 200 });
    assert_eq!(body.position, Vec2 { x: 100, y: 200 });
}

#[test]
fn velocity_never_exceeds_top_speed_on_either_axis() {
    let m = player_momentum();
    let mut body = still_at(0, 0);
    for _ in 0..500 {
        player_movement(&keys(true, false, false, true), &m, &mut body, 16);
        assert!(body.velocity.x.abs() <= m.max_speed);
        assert!(body.velocity.y.abs() <= m.max_speed);
    }
    assert_eq!(body.velocity, Vec2 { x: 8_000, y: 8_000 });
    for _ in 0..2_000 {
        player_movement(&keys(false, true, true, false), &m, &mut body, 16);
        assert!(body.velocity.x.abs() <= m.max_speed);
        assert!(body.velocity.y.abs() <= m.max_speed);
    }
    assert_eq!(body.velocity, Vec2 { x: -8_000, y: -8_000 });
}

#[test]
fn a_velocity_beyond_top_speed_is_cut_back() {
    let mut body = Body { position: Vec2 { x: 0, y: 0 }, velocity: Vec2 { x: 50_000, y: -50_000 } };
    player_movement(&keys(false, false, false, false), &player_momentum(), &mut body, 16);
    assert_eq!(body.velocity, Vec2 { x: 8_000, y: -8_000 });
    assert_eq!(integrate_axis(i64::MAX, 1_000, 1_000, 8_000), 8_000);
    assert_eq!(integrate_axis(i64::MIN, -1_000, 1_000, 8_000), -8_000);
}

#[test]
fn a_diagonal_velocity_is_longer_than_top_speed() {
    let m = player_momentum();
    let mut body = Body { position: Vec2 { x: 0, y: 0 }, velocity: Vec2 { x: 8_000, y: 8_000 } };
    player_movement(&keys(true, false, false, true), &m, &mut body, 16);
    let squared = (body.velocity.x as i128).pow(2) + (body.velocity.y as i128).pow(2);
    assert!(squared > (m.max_speed as i128).pow(2));
    assert!(squared <= 2 * (m.max_speed as i128).pow(2));
}

#[test]
fn integrate_axis_rounds_toward_zero() {
    assert_eq!(integrate_axis(0, 11_538, 16, 8_000), 184);
    assert_eq!(integrate_axis(0, -11_538, 16, 8_000), -184);
    assert_eq!(integrate_axis(10, 999, 1, 8_000), 10);
}

#[test]
fn bounded_movement_keeps_a_position_inside_the_field() {
    let field = Field { half_width: 640_000, half_height: 360_000 };
    let mut p = Vec2 { x: 700_000, y: -400_000 };
    bounded_movement(&mut p, &field);
    assert_eq!(p, Vec2 { x: 640_000, y: -360_000 });
    let mut q = Vec2 { x: -1, y: 2 };
    bounded_movement(&mut q, &field);
    assert_eq!(q, Vec2 { x: -1, y: 2 });
}

#[test]
fn magnitude_is_eight_hundredths_of_the_component_sum() {
    assert_eq!(get_magnitude(&Vec2 { x: 3_000, y: -4_000 }), 560);
    assert_eq!(get_magnitude(&Vec2 { x: 0, y: 0 }), 0);
    assert_eq!(get_magnitude(&Vec2 { x: -12, y: -1 }), 1);
    assert!(get_magnitude(&Vec2 { x: i64::MIN, y: i64::MIN }) > 0);
}

#[test]
fn squared_distance_is_symmetric() {
    let a = Vec2 { x: 1_000, y: 2_000 };
    let b = Vec2 { x: 4_000, y: -2_000 };
    assert_eq!(squared_distance(&a, &b), 25_000_000);
    assert_eq!(squared_distance(&b, &a), 25_000_000);
    assert_eq!(squared_distance(&a, &a), 0);
}

#[test]
fn the_nearest_target_is_found_and_the_first_wins_a_tie() {
    let from = Vec2 { x: 0, y: 0 };
    assert_eq!(closest_target(&from, &vec![]), None);
    let targets = vec![
        Vec2 { x: 5_000, y: 0 },
        Vec2 { x: 0, y: 3_000 },
        Vec2 { x: -3_000, y: 0 },
        Vec2 { x: 9_000, y: 9_000 },
    ];
    assert_eq!(closest_target(&from, &targets), Some(1));
    assert_eq!(closest_target(&Vec2 { x: 9_000, y: 8_000 }, &targets), Some(3));
}

#[test]
fn chasing_pushes_toward_the_target() {
    let m = Momentum::new(350, 2_000, 10_000);
    let mut body = still_at(0, 0);
    chase_target(&m, &mut body, &Vec2 { x: 3_000, y: 4_000 }, 100);
    assert_eq!(body.velocity, Vec2 { x: 300, y: 350 });
    assert_eq!(body.position, Vec2 { x: 300, y: 350 });
    let mut body = still_at(0, 0);
    chase_target(&m, &mut body, &Vec2 { x: -3_000, y: -4_000 }, 100);
    assert_eq!(body.velocity, Vec2 { x: -300, y: -350 });
}

#[test]
fn chasing_a_target_at_the_same_place_changes_nothing() {
    let m = Momentum::new(350, 2_000, 10_000);
    let mut body = Body { position: Vec2 { x: 7, y: 7 }, velocity: Vec2 { x: 10, y: -10 } };
    chase_target(&m, &mut body, &Vec2 { x: 7, y: 7 }, 100);
    assert_eq!(body.velocity, Vec2 { x: 10, y: -10 });
    assert_eq!(body.position, Vec2 { x: 17, y: -3 });
}

fn enemy_in(state: EnemyState) -> Enemy {
    let mut e = Enemy::with_energy(30_000, 30_000, 10_000, 10_000);
    e.state = state;
    e.colour = Colour { r: 0, g: 255_000, b: 0 };
    e
}

#[test]
fn a_stopped_enemy_is_grey_and_stays_where_it_is() {
    let m = Momentum::new(5_000, 1_000, 10_000);
    let mut body = Body { position: Vec2 { x: 1, y: 2 }, velocity: Vec2 { x: 30, y: 40 } };
    let chase =
        chase_movement(&enemy_in(EnemyState::Stopped), &m, &mut body, &vec![Vec2 { x: 9, y: 9 }], 16);
    assert_eq!(
        chase,
        Chase { fill: Colour { r: 392, g: 392, b: 392 }, target: None, go_on: true }
    );
    assert_eq!(body, Body { position: Vec2 { x: 1, y: 2 }, velocity: Vec2 { x: 30, y: 40 } });
}

#[test]
fn a_moving_enemy_without_a_target_ends_the_chase() {
    let m = Momentum::new(5_000, 1_000, 10_000);
    let mut body = still_at(1, 2);
    let chase = chase_movement(&enemy_in(EnemyState::Moving), &m, &mut body, &vec![], 16);
    assert_eq!(
        chase,
        Chase { fill: Colour { r: 0, g: 255_000, b: 0 }, target: None, go_on: false }
    );
    assert_eq!(body, still_at(1, 2));
}

#[test]
fn a_moving_enemy_goes_after_the_nearest_target() {
    let m = Momentum::new(350, 2_000, 10_000);
    let mut body = still_at(0, 0);
    let targets = vec![Vec2 { x: 300_000, y: 0 }, Vec2 { x: 3_000, y: 4_000 }];
    let chase = chase_movement(&enemy_in(EnemyState::Moving), &m, &mut body, &targets, 100);
    assert_eq!(chase.target, Some(1));
    assert!(chase.go_on);
    assert_eq!(chase.fill, Colour { r: 0, g: 255_000, b: 0 });
    assert_eq!(body.velocity, Vec2 { x: 300, y: 350 });
    assert!(body.velocity.x.abs() <= m.max_speed && body.velocity.y.abs() <= m.max_speed);
}

#[test]
fn positions_saturate_at_the_edge_of_the_world() {
    let far = chase_me::fixed::FAR;
    let m = Momentum::new(1_000, 1_000, 0);
    let mut body = Body { position: Vec2 { x: far, y: -far }, velocity: Vec2 { x: 900, y: -900 } };
    player_movement(&keys(false, false, false, false), &m, &mut body, 16);
    assert_eq!(body.position, Vec2 { x: far, y: -far });
    assert!(body.position.is_in_world());
    assert!(!Vec2 { x: far + 1, y: 0 }.is_in_world());
}

use chase_me::difficulty::{
    colour_of_tier, rate, rates_low, settle_stat, shape_for, EnemyStrengthRange, TIERS,
};
use chase_me::enemy::{Bias, Colour, Enemy, EnemyState};
use chase_me::movement::{Momentum, Vec2};

fn half() -> Bias {
    Bias { num: 500, den: 1_000 }
}

fn double() -> Bias {
    Bias { num: 2_000, den: 1_000 }
}

#[test]
fn the_standard_ranges() {
    let r = EnemyStrengthRange::default();
    assert_eq!(r.max_speed, (5_000, 12_000));
    assert_eq!(r.max_energy, (30_000, 120_000));
    assert_eq!(r.recharge_rate, (10_000, 60_000));
    assert_eq!(r.mass, (1_000, 10_000));
    assert_eq!(r.thrust, (10_000, 20_000));
    assert_eq!(r.lifetime, (30_000, 120_000));
    assert_eq!(r.radius, (5_000, 15_000));
    assert!(r.is_valid());
    assert_eq!(r.get_power_range(), (90_000, 204_000));
}

#[test]
fn ranges_must_be_positive_and_ordered() {
    let mut r = EnemyStrengthRange::default();
    r.mass = (0, 10_000);
    assert!(!r.is_valid());
    let mut r = EnemyStrengthRange::default();
    r.thrust = (20_000, 10_000);
    assert!(!r.is_valid());
    let mut r = EnemyStrengthRange::default();
    r.radius = (5_000, 1_000_000_001);
    assert!(!r.is_valid());
}

#[test]
fn a_rating_scale_without_width_is_not_valid() {
    let r = EnemyStrengthRange {
        max_speed: (1_000_000, 1_000_000),
        max_energy: (1, 1),
        recharge_rate: (1, 1),
        mass: (1, 1_000_000),
        thrust: (1_000_000, 1_000_000),
        lifetime: (1, 1),
        radius: (1, 1),
    };
    assert!(!r.is_valid());
    assert!(r.has_ordered_ranges());
    assert_eq!(r.get_power_range(), (1_000_000_000_002, 1_000_002));
    for _ in 0..50 {
        let (m, e) = r.get_enemy_stats(Bias { num: 1, den: 1 });
        assert_eq!(m.max_speed, 1_000_000);
        assert!(1 <= m.mass && m.mass <= 1_000_000);
        assert_eq!(e.max_energy, 1);
        assert_eq!(r.get_radius(m.mass), 1);
    }
}

#[test]
fn stats_stay_within_their_ranges_for_every_bias() {
    let r = EnemyStrengthRange::default();
    let biases = [half(), Bias { num: 1, den: 1 }, Bias { num: 1_500, den: 1_000 }, double()];
    for bias in biases {
        for _ in 0..300 {
            let (m, e) = r.get_enemy_stats(bias);
            assert!(r.max_speed.0 <= m.max_speed && m.max_speed <= r.max_speed.1);
            assert!(r.mass.0 <= m.mass && m.mass <= r.mass.1);
            assert!(r.thrust.0 <= m.thrust && m.thrust <= r.thrust.1);
            assert!(r.lifetime.0 <= e.lifetime.duration && e.lifetime.duration <= r.lifetime.1);
            assert!(r.max_energy.0 <= e.max_energy && e.max_energy <= r.max_energy.1);
            assert!(r.recharge_rate.0 <= e.recharge_rate);
            assert!(e.recharge_rate <= r.recharge_rate.1);
            assert!(0 <= e.energy && e.energy <= e.max_energy);
            assert_eq!(e.state, EnemyState::Stopped);
            assert!(m.is_valid() && e.is_valid());
        }
    }
}

#[test]
fn a_small_bias_keeps_the_stats_low() {
    let r = EnemyStrengthRange::default();
    for _ in 0..300 {
        let (m, e) = r.get_enemy_stats(half());
        assert!(m.max_speed <= 6_000);
        assert!(m.mass <= 5_000);
        assert_eq!(m.thrust, 10_000);
        assert!(e.lifetime.duration <= 60_000);
        assert!(e.max_energy <= 60_000);
        assert!(e.recharge_rate <= 30_000);
    }
}

#[test]
fn the_stats_vary() {
    let r = EnemyStrengthRange::default();
    let first = r.get_enemy_stats(double()).0;
    let mut differs = false;
    for _ in 0..64 {
        if r.get_enemy_stats(double()).0 != first {
            differs = true;
        }
    }
    assert!(differs);
}

#[test]
fn settle_stat_brings_a_draw_back_within_the_range() {
    assert_eq!(settle_stat((5_000, 12_000), 24_000), 12_000);
    assert_eq!(settle_stat((5_000, 12_000), 7_000), 7_000);
    assert_eq!(settle_stat((5_000, 12_000), 1), 5_000);
}

#[test]
fn the_radius_stays_within_its_range_and_grows_with_mass() {
    let r = EnemyStrengthRange::default();
    for _ in 0..300 {
        let light = r.get_radius(1_000);
        assert_eq!(light, 5_000);
        let medium = r.get_radius(5_000);
        assert!(5_000 <= medium && medium <= 7_500);
        let heavy = r.get_radius(10_000);
        assert!(5_000 <= heavy && heavy <= 15_000);
        let beyond = r.get_radius(1_000_000_000);
        assert!(5_000 <= beyond && beyond <= 15_000);
    }
}

#[test]
fn tiers_are_tenths_of_the_rating_scale() {
    assert_eq!(TIERS, 10);
    assert_eq!(rate(90_000, 90_000, 204_000), 0);
    assert_eq!(rate(121_799, 90_000, 204_000), 0);
    assert_eq!(rate(121_800, 90_000, 204_000), 1);
    assert_eq!(rate(153_600, 90_000, 204_000), 2);
    assert_eq!(rate(249_000, 90_000, 204_000), 5);
    assert_eq!(rate(376_199, 90_000, 204_000), 8);
    assert_eq!(rate(376_200, 90_000, 204_000), 9);
    assert_eq!(rate(400_000, 90_000, 204_000), 9);
}

#[test]
fn strengths_off_the_scale_fall_in_the_end_tiers() {
    assert_eq!(rate(0, 90_000, 204_000), 0);
    assert_eq!(rate(-5, 90_000, 204_000), 0);
    assert_eq!(rate(i64::MIN, 90_000, 204_000), 0);
    assert_eq!(rate(1_000_000_000, 90_000, 204_000), 9);
    assert_eq!(rate(i64::MAX, 90_000, 204_000), 9);
}

#[test]
fn the_lower_half_ends_at_the_middle_of_the_scale() {
    assert!(rates_low(248_999, 90_000, 204_000));
    assert!(!rates_low(249_000, 90_000, 204_000));
    assert!(rates_low(0, 90_000, 204_000));
    assert!(!rates_low(i64::MAX, 90_000, 204_000));
}

#[test]
fn the_ten_colours() {
    let expected = [
        (255_000, 0, 0),
        (255_000, 112_500, 0),
        (255_000, 255_000, 0),
        (112_500, 255_000, 0),
        (0, 255_000, 0),
        (0, 255_000, 112_500),
        (0, 255_000, 255_000),
        (0, 112_500, 255_000),
        (0, 0, 255_000),
        (255_000, 255_000, 255_000),
    ];
    for (tier, (r, g, b)) in expected.iter().enumerate() {
        assert_eq!(colour_of_tier(tier as u8), Colour { r: *r, g: *g, b: *b });
    }
    assert_eq!(colour_of_tier(200), Colour { r: 255_000, g: 255_000, b: 255_000 });
}

#[test]
fn the_colour_of_an_enemy_is_that_of_its_tier() {
    let r = EnemyStrengthRange::default();
    let weakest = (
        Momentum::new(5_000, 1_000, 10_000),
        Enemy::with_energy(30_000, 30_000, 10_000, 0),
    );
    assert_eq!(r.get_colour(&weakest.0, &weakest.1), Colour { r: 255_000, g: 0, b: 0 });
    let strongest = (
        Momentum::new(12_000, 1_000, 20_000),
        Enemy::with_energy(30_000, 120_000, 60_000, 0),
    );
    assert_eq!(
        r.get_colour(&strongest.0, &strongest.1),
        Colour { r: 255_000, g: 255_000, b: 255_000 }
    );
    let middling = (
        Momentum::new(8_000, 2_000, 15_000),
        Enemy::with_energy(30_000, 50_000, 20_000, 0),
    );
    assert_eq!(r.get_colour(&middling.0, &middling.1), Colour { r: 255_000, g: 112_500, b: 0 });
}

#[test]
fn the_dart_has_four_corners() {
    let p = shape_for(false, 5_000);
    assert!(p.closed);
    assert_eq!(
        p.points,
        vec![
            Vec2 { x: 0, y: 5_000 },
            Vec2 { x: -10_000, y: 10_000 },
            Vec2 { x: 0, y: -5_000 },
            Vec2 { x: 10_000, y: 10_000 },
        ]
    );
}

#[test]
fn the_star_has_ten_corners_by_turns_far_and_near() {
    let p = shape_for(true, 5_000);
    assert!(p.closed);
    assert_eq!(
        p.points,
        vec![
            Vec2 { x: 10_000, y: 0 },
            Vec2 { x: 4_045, y: 2_938 },
            Vec2 { x: 3_090, y: 9_510 },
            Vec2 { x: -1_545, y: 4_755 },
            Vec2 { x: -8_090, y: 5_877 },
            Vec2 { x: -5_000, y: 0 },
            Vec2 { x: -8_090, y: -5_877 },
            Vec2 { x: -1_545, y: -4_755 },
            Vec2 { x: 3_090, y: -9_510 },
            Vec2 { x: 4_045, y: -2_938 },
        ]
    );
}

#[test]
fn a_shape_without_radius_is_a_point() {
    assert_eq!(shape_for(true, 0).points, vec![Vec2 { x: 0, y: 0 }; 10]);
    assert_eq!(shape_for(false, 0).points, vec![Vec2 { x: 0, y: 0 }; 4]);
}

#[test]
fn weak_enemies_are_stars_and_strong_ones_darts() {
    let r = EnemyStrengthRange::default();
    let weak = (
        Momentum::new(5_000, 1_000, 10_000),
        Enemy::with_energy(30_000, 30_000, 10_000, 0),
    );
    let strong = (
        Momentum::new(12_000, 1_000, 20_000),
        Enemy::with_energy(30_000, 120_000, 60_000, 0),
    );
    for _ in 0..100 {
        let star = r.get_shape(&weak.0, &weak.1);
        assert_eq!(star.points.len(), 10);
        assert!(star.closed);
        assert_eq!(star.points[0], Vec2 { x: 10_000, y: 0 });
        let dart = r.get_shape(&strong.0, &strong.1);
        assert_eq!(dart.points.len(), 4);
        assert_eq!(dart.points[0], Vec2 { x: 0, y: 5_000 });
    }
    let heavy = (
        Momentum::new(12_000, 10_000, 20_000),
        Enemy::with_energy(30_000, 120_000, 60_000, 0),
    );
    for _ in 0..100 {
        let shape = r.get_shape(&heavy.0, &heavy.1);
        assert_eq!(shape.points.len(), 10);
        let radius = shape.points[5].x.abs();
        assert!(5_000 <= radius && radius <= 15_000);
        assert_eq!(shape.points[0], Vec2 { x: 2 * radius, y: 0 });
    }
}

//! How strong a new enemy may be: the configured range of every stat, the
//! random draw of one enemy's stats from it, and the tier, colour and shape
//! that show an enemy's strength.

use crate::enemy::{randomize, strength_of, strength_spec};
use crate::enemy::{calc_strength, newborn, scaled_upper, Bias, Colour, Enemy};
use crate::fixed::{clamp, clamp_spec, LIMIT};
use crate::movement::{Momentum, Vec2};
use vstd::prelude::*;

verus! {

/// The bounds between which each stat of a new enemy is drawn, as pairs of
/// least and greatest value.
#[derive(Clone, Copy, Debug)]
pub struct EnemyStrengthRange {
    pub max_speed: (i64, i64),
    pub max_energy: (i64, i64),
    pub recharge_rate: (i64, i64),
    pub mass: (i64, i64),
    pub thrust: (i64, i64),
    pub lifetime: (i64, i64),
    pub radius: (i64, i64),
}

/// An outline made of straight edges.
#[derive(Clone, Debug)]
pub struct Polygon {
    pub points: Vec<Vec2>,
    pub closed: bool,
}

/// Number of difficulty tiers.
pub const TIERS: i64 = 10;

/// Scale of the direction table of the star: one whole is a million.
pub const DIRECTION_SCALE: i64 = 1_000_000;

/// A range is positive, ordered and within the limit for configured
/// quantities.
pub open spec fn range_ok(range: (i64, i64)) -> bool {
    0 < range.0 <= range.1 <= LIMIT
}

/// Width of the scale against which strength is rated: twice the greatest
/// strength less the least.
pub open spec fn rating_width(least: int, greatest: int) -> int {
    2 * greatest - least
}

/// The tier of a strength: the tenth of the rating scale that it falls in,
/// counted from zero, with everything below the scale in the first tier and
/// everything above it in the last.
pub open spec fn tier_spec(strength: int, least: int, greatest: int) -> int {
    clamp_spec((10 * (strength - least)) / rating_width(least, greatest), 0, TIERS - 1)
}

/// Whether a strength lies in the lower half of the rating scale.
pub open spec fn in_lower_half(strength: int, least: int, greatest: int) -> bool {
    2 * (strength - least) < rating_width(least, greatest)
}

/// The colour of each tier, from red for the weakest through yellow, green
/// and blue to white for the strongest.
pub open spec fn tier_colour(tier: int) -> Colour {
    if tier <= 0 {
        Colour { r: 255_000, g: 0, b: 0 }
    } else if tier == 1 {
        Colour { r: 255_000, g: 112_500, b: 0 }
    } else if tier == 2 {
        Colour { r: 255_000, g: 255_000, b: 0 }
    } else if tier == 3 {
        Colour { r: 112_500, g: 255_000, b: 0 }
    } else if tier == 4 {
        Colour { r: 0, g: 255_000, b: 0 }
    } else if tier == 5 {
        Colour { r: 0, g: 255_000, b: 112_500 }
    } else if tier == 6 {
        Colour { r: 0, g: 255_000, b: 255_000 }
    } else if tier == 7 {
        Colour { r: 0, g: 112_500, b: 255_000 }
    } else if tier == 8 {
        Colour { r: 0, g: 0, b: 255_000 }
    } else {
        Colour { r: 255_000, g: 255_000, b: 255_000 }
    }
}

/// Cosine and sine, in millionths, of the `i`-th multiple of 36 degrees.
pub open spec fn star_direction(i: int) -> (int, int) {
    if i == 0 {
        (1_000_000, 0)
    } else if i == 1 {
        (809_017, 587_785)
    } else if i == 2 {
        (309_017, 951_057)
    } else if i == 3 {
        (-309_017, 951_057)
    } else if i == 4 {
        (-809_017, 587_785)
    } else if i == 5 {
        (-1_000_000, 0)
    } else if i == 6 {
        (-809_017, -587_785)
    } else if i == 7 {
        (-309_017, -951_057)
    } else if i == 8 {
        (309_017, -951_057)
    } else {
        (809_017, -587_785)
    }
}

/// `v * num / den` rounded toward zero, for signed `v` and `num`.
pub open spec fn toward_zero(v: int, num: int, den: int) -> int {
    if v * num < 0 {
        -((-(v * num)) / den)
    } else {
        (v * num) / den
    }
}

/// The `i`-th corner of the five-pointed star of a radius: corners with an
/// even number lie at twice the radius, those with an odd number at the
/// radius, each 36 degrees further round than the one before.
pub open spec fn star_point(radius: int, i: int) -> Vec2 {
    let reach = if i % 2 == 0 {
        2 * radius
    } else {
        radius
    };
    Vec2 {
        x: toward_zero(reach, star_direction(i).0, DIRECTION_SCALE as int) as i64,
        y: toward_zero(reach, star_direction(i).1, DIRECTION_SCALE as int) as i64,
    }
}

/// The ten corners of the star.
pub open spec fn star_points(radius: int) -> Seq<Vec2> {
    Seq::new(10, |i: int| star_point(radius, i))
}

/// The four corners of the dart: beak, left wing, tail, right wing.
pub open spec fn dart_points(radius: int) -> Seq<Vec2> {
    seq![
        Vec2 { x: 0, y: radius as i64 },
        Vec2 { x: (-2 * radius) as i64, y: (2 * radius) as i64 },
        Vec2 { x: 0, y: (-radius) as i64 },
        Vec2 { x: (2 * radius) as i64, y: (2 * radius) as i64 },
    ]
}

/// The outline that shows a strength: a star in the lower half of the
/// rating scale, a dart in the upper half.
pub open spec fn shape_points(lower_half: bool, radius: int) -> Seq<Vec2> {
    if lower_half {
        star_points(radius)
    } else {
        dart_points(radius)
    }
}

impl EnemyStrengthRange {
    /// Least and greatest strength: the strength of an enemy with every
    /// stat at the bottom of its range, and of one with every stat at the
    /// top.
    pub open spec fn power_range(self) -> (int, int) {
        (
            strength_spec(
                self.max_speed.0 as int,
                self.thrust.0 as int,
                self.mass.0 as int,
                self.max_energy.0 as int,
                self.recharge_rate.0 as int,
            ),
            strength_spec(
                self.max_speed.1 as int,
                self.thrust.1 as int,
                self.mass.1 as int,
                self.max_energy.1 as int,
                self.recharge_rate.1 as int,
            ),
        )
    }

    /// Every range is positive, ordered and within the limit for
    /// configured quantities.
    pub open spec fn ranges_ok(self) -> bool {
        &&& range_ok(self.max_speed)
        &&& range_ok(self.max_energy)
        &&& range_ok(self.recharge_rate)
        &&& range_ok(self.mass)
        &&& range_ok(self.thrust)
        &&& range_ok(self.lifetime)
        &&& range_ok(self.radius)
    }

    /// Every range is positive and ordered, and the rating scale has a
    /// positive width.
    pub open spec fn wf(self) -> bool {
        &&& self.ranges_ok()
        &&& rating_width(self.power_range().0, self.power_range().1) > 0
    }

    /// The bias with which the radius of an enemy is drawn: its mass over
    /// the greatest mass.
    pub open spec fn radius_bias(self, mass: i64) -> Bias {
        Bias { num: mass, den: self.mass.1 }
    }

    /// The corners are those of the outline that shows the strength of the
    /// stats, for some radius that the mass allows.
    pub open spec fn outlines(self, momentum: Momentum, enemy: Enemy, corners: Seq<Vec2>) -> bool {
        exists|radius: int|
            stat_drawn(self.radius, self.radius_bias(momentum.mass), radius)
                && #[trigger] shape_points(
                in_lower_half(
                    strength_spec(
                        momentum.max_speed as int,
                        momentum.thrust as int,
                        momentum.mass as int,
                        enemy.max_energy as int,
                        enemy.recharge_rate as int,
                    ),
                    self.power_range().0,
                    self.power_range().1,
                ),
                radius,
            ) == corners
    }

    /// The stats lie within their ranges.
    pub open spec fn admits(self, momentum: Momentum, enemy: Enemy) -> bool {
        &&& self.max_speed.0 <= momentum.max_speed <= self.max_speed.1
        &&& self.mass.0 <= momentum.mass <= self.mass.1
        &&& self.thrust.0 <= momentum.thrust <= self.thrust.1
        &&& self.lifetime.0 <= enemy.lifetime.duration <= self.lifetime.1
        &&& self.max_energy.0 <= enemy.max_energy <= self.max_energy.1
        &&& self.recharge_rate.0 <= enemy.recharge_rate <= self.recharge_rate.1
    }

    /// Least and greatest strength of the configured ranges.
    pub fn get_power_range(&self) -> (r: (i64, i64))
        requires
            self.ranges_ok(),
        ensures
            r.0 == self.power_range().0,
            r.1 == self.power_range().1,
            0 <= r.0,
            0 <= r.1,
    {
        let least: i64 = strength_of(
            self.max_speed.0,
            self.thrust.0,
            self.mass.0,
            self.max_energy.0,
            self.recharge_rate.0,
        );
        let greatest: i64 = strength_of(
            self.max_speed.1,
            self.thrust.1,
            self.mass.1,
            self.max_energy.1,
            self.recharge_rate.1,
        );
        (least, greatest)
    }
}

/// Tells whether a range is positive, ordered and within the limit.
fn range_is_ok(range: (i64, i64)) -> (ok: bool)
    ensures
        ok == range_ok(range),
{
    0 < range.0 && range.0 <= range.1 && range.1 <= LIMIT
}

impl EnemyStrengthRange {
    /// Tells whether every range is positive, ordered and within the
    /// limit.
    pub fn has_ordered_ranges(&self) -> (ok: bool)
        ensures
            ok == self.ranges_ok(),
    {
        range_is_ok(self.max_speed) && range_is_ok(self.max_energy) && range_is_ok(
            self.recharge_rate,
        ) && range_is_ok(self.mass) && range_is_ok(self.thrust) && range_is_ok(self.lifetime)
            && range_is_ok(self.radius)
    }

    /// Tells whether the ranges are well formed.
    pub fn is_valid(&self) -> (ok: bool)
        ensures
            ok == self.wf(),
    {
        if self.has_ordered_ranges() {
            let power: (i64, i64) = self.get_power_range();
            2 * (power.1 as i128) - (power.0 as i128) > 0
        } else {
            false
        }
    }
}

impl Default for EnemyStrengthRange {
    /// The ranges of the standard game.
    fn default() -> (r: Self)
        ensures
            r == (EnemyStrengthRange {
                max_speed: (5_000, 12_000),
                max_energy: (30_000, 120_000),
                recharge_rate: (10_000, 60_000),
                mass: (1_000, 10_000),
                thrust: (10_000, 20_000),
                lifetime: (30_000, 120_000),
                radius: (5_000, 15_000),
            }),
            r.wf(),
            r.power_range() == (90_000int, 204_000int),
    {
        EnemyStrengthRange {
            max_speed: (5_000, 12_000),
            max_energy: (30_000, 120_000),
            recharge_rate: (10_000, 60_000),
            mass: (1_000, 10_000),
            thrust: (10_000, 20_000),
            lifetime: (30_000, 120_000),
            radius: (5_000, 15_000),
        }
    }
}

/// What a stat drawn from a range under a bias may be: at least the bottom
/// of the range, and at most its top or its scaled top, whichever is less.
pub open spec fn stat_drawn(range: (i64, i64), bias: Bias, v: int) -> bool {
    &&& range.0 <= v <= range.1
    &&& v <= scaled_upper(range, bias)
}

/// Whatever was drawn, a stat that was brought back within its range lies
/// within it.
pub proof fn law_settled_stat_within_range(range: (i64, i64), drawn: int)
    requires
        range.0 <= range.1,
    ensures
        range.0 <= clamp_spec(drawn, range.0 as int, range.1 as int) <= range.1,
{
}

/// Brings a drawn stat back within its configured range.
pub fn settle_stat(range: (i64, i64), drawn: i64) -> (v: i64)
    requires
        range.0 <= range.1,
    ensures
        v == clamp_spec(drawn as int, range.0 as int, range.1 as int),
{
    clamp(drawn, range.0, range.1)
}

/// The tier of a strength on the rating scale between a least and a greatest
/// strength.
pub fn rate(strength: i64, least: i64, greatest: i64) -> (tier: u8)
    requires
        rating_width(least as int, greatest as int) > 0,
    ensures
        tier == tier_spec(strength as int, least as int, greatest as int),
        tier < TIERS,
{
    let x: i128 = 10 * (strength as i128 - least as i128);
    let w: i128 = 2 * (greatest as i128) - least as i128;
    if x < 0 {
        proof {
            assert(x / w < 0) by (nonlinear_arith)
                requires
                    x < 0,
                    w > 0,
            ;
        }
        0
    } else {
        proof {
            assert(x / w >= 0) by (nonlinear_arith)
                requires
                    x >= 0,
                    w > 0,
            ;
        }
        let q: i128 = x / w;
        if q > 9 {
            9
        } else {
            q as u8
        }
    }
}

/// Whether a strength lies in the lower half of the rating scale.
pub fn rates_low(strength: i64, least: i64, greatest: i64) -> (low: bool)
    ensures
        low == in_lower_half(strength as int, least as int, greatest as int),
{
    2 * (strength as i128 - least as i128) < 2 * (greatest as i128) - least as i128
}

/// The colour of a tier.
pub fn colour_of_tier(tier: u8) -> (c: Colour)
    ensures
        c == tier_colour(tier as int),
{
    if tier == 0 {
        Colour { r: 255_000, g: 0, b: 0 }
    } else if tier == 1 {
        Colour { r: 255_000, g: 112_500, b: 0 }
    } else if tier == 2 {
        Colour { r: 255_000, g: 255_000, b: 0 }
    } else if tier == 3 {
        Colour { r: 112_500, g: 255_000, b: 0 }
    } else if tier == 4 {
        Colour { r: 0, g: 255_000, b: 0 }
    } else if tier == 5 {
        Colour { r: 0, g: 255_000, b: 112_500 }
    } else if tier == 6 {
        Colour { r: 0, g: 255_000, b: 255_000 }
    } else if tier == 7 {
        Colour { r: 0, g: 112_500, b: 255_000 }
    } else if tier == 8 {
        Colour { r: 0, g: 0, b: 255_000 }
    } else {
        Colour { r: 255_000, g: 255_000, b: 255_000 }
    }
}

/// Cosine and sine, in millionths, of the `i`-th multiple of 36 degrees.
fn direction_of(i: usize) -> (d: (i64, i64))
    ensures
        d.0 == star_direction(i as int).0,
        d.1 == star_direction(i as int).1,
        -DIRECTION_SCALE <= d.0 <= DIRECTION_SCALE,
        -DIRECTION_SCALE <= d.1 <= DIRECTION_SCALE,
{
    if i == 0 {
        (1_000_000, 0)
    } else if i == 1 {
        (809_017, 587_785)
    } else if i == 2 {
        (309_017, 951_057)
    } else if i == 3 {
        (-309_017, 951_057)
    } else if i == 4 {
        (-809_017, 587_785)
    } else if i == 5 {
        (-1_000_000, 0)
    } else if i == 6 {
        (-809_017, -587_785)
    } else if i == 7 {
        (-309_017, -951_057)
    } else if i == 8 {
        (309_017, -951_057)
    } else {
        (809_017, -587_785)
    }
}

/// One coordinate of the point at the given reach in the given direction.
fn along(reach: i64, direction: i64) -> (r: i64)
    requires
        0 <= reach <= 2 * LIMIT,
        -DIRECTION_SCALE <= direction <= DIRECTION_SCALE,
    ensures
        r == toward_zero(reach as int, direction as int, DIRECTION_SCALE as int),
{
    proof {
        assert(-(2 * LIMIT * DIRECTION_SCALE) <= reach * direction <= 2 * LIMIT * DIRECTION_SCALE)
            by (nonlinear_arith)
            requires
                0 <= reach <= 2 * LIMIT,
                -DIRECTION_SCALE <= direction <= DIRECTION_SCALE,
        ;
    }
    let product: i64 = reach * direction;
    if product < 0 {
        -((-product) / DIRECTION_SCALE)
    } else {
        product / DIRECTION_SCALE
    }
}

/// The outline of a radius: the star for the lower half of the rating
/// scale, the dart for the upper half. Both are closed.
pub fn shape_for(lower_half: bool, radius: i64) -> (p: Polygon)
    requires
        0 <= radius <= LIMIT,
    ensures
        p.points@ == shape_points(lower_half, radius as int),
        p.closed,
{
    let mut points: Vec<Vec2> = Vec::new();
    if lower_half {
        let mut i: usize = 0;
        while i < 10
            invariant
                0 <= radius <= LIMIT,
                i <= 10,
                points@.len() == i,
                forall|j: int| 0 <= j < i ==> points@[j] == star_point(radius as int, j),
            decreases 10 - i,
        {
            let reach: i64 = if i % 2 == 0 {
                2 * radius
            } else {
                radius
            };
            let d: (i64, i64) = direction_of(i);
            points.push(Vec2 { x: along(reach, d.0), y: along(reach, d.1) });
            i = i + 1;
        }
    } else {
        points.push(Vec2 { x: 0, y: radius });
        points.push(Vec2 { x: -(2 * radius), y: 2 * radius });
        points.push(Vec2 { x: 0, y: -radius });
        points.push(Vec2 { x: 2 * radius, y: 2 * radius });
    }
    Polygon { points, closed: true }
}

impl EnemyStrengthRange {
    /// Draws one stat: a random value between the bottom of its range and
    /// the top scaled by the bias, brought back within the range.
    pub fn draw_stat(range: (i64, i64), bias: Bias) -> (v: i64)
        requires
            range_ok(range),
            bias.wf(),
        ensures
            stat_drawn(range, bias, v as int),
    {
        settle_stat(range, randomize(range, bias))
    }

    /// Draws the stats of a new enemy. Each stat is drawn on its own from
    /// its range with the top scaled by the bias, and is then brought back
    /// within the range, so that every stat of the enemy lies within its
    /// configured bounds whatever the bias.
    pub fn get_enemy_stats(&self, bias: Bias) -> (stats: (Momentum, Enemy))
        requires
            self.ranges_ok(),
            bias.wf(),
        ensures
            self.admits(stats.0, stats.1),
            stat_drawn(self.max_speed, bias, stats.0.max_speed as int),
            stat_drawn(self.mass, bias, stats.0.mass as int),
            stat_drawn(self.thrust, bias, stats.0.thrust as int),
            stat_drawn(self.lifetime, bias, stats.1.lifetime.duration as int),
            stat_drawn(self.max_energy, bias, stats.1.max_energy as int),
            stat_drawn(self.recharge_rate, bias, stats.1.recharge_rate as int),
            stats.0.wf(),
            stats.1.wf(),
            stats.1 == newborn(
                stats.1.lifetime.duration as int,
                stats.1.max_energy as int,
                stats.1.recharge_rate as int,
                stats.1.energy as int,
            ),
    {
        let momentum = Momentum::new(
            Self::draw_stat(self.max_speed, bias),
            Self::draw_stat(self.mass, bias),
            Self::draw_stat(self.thrust, bias),
        );
        let enemy = Enemy::new(
            Self::draw_stat(self.lifetime, bias),
            Self::draw_stat(self.max_energy, bias),
            Self::draw_stat(self.recharge_rate, bias),
        );
        (momentum, enemy)
    }

    /// Draws the radius of an enemy of the given mass: the heavier the
    /// enemy, measured against the greatest mass, the larger its radius may
    /// be, and it always lies within the configured radius range.
    pub fn get_radius(&self, mass: i64) -> (r: i64)
        requires
            self.ranges_ok(),
            0 < mass <= LIMIT,
        ensures
            stat_drawn(self.radius, self.radius_bias(mass), r as int),
    {
        Self::draw_stat(self.radius, Bias { num: mass, den: self.mass.1 })
    }

    /// The colour that shows how strong an enemy is: the colour of the tier
    /// of its strength on the rating scale of the configured ranges. The
    /// scale must have a positive width for its tenths to mean anything.
    pub fn get_colour(&self, momentum: &Momentum, enemy: &Enemy) -> (c: Colour)
        requires
            self.wf(),
            momentum.wf(),
            0 <= enemy.max_energy <= LIMIT,
            0 <= enemy.recharge_rate <= LIMIT,
        ensures
            c == tier_colour(
                tier_spec(
                    strength_spec(
                        momentum.max_speed as int,
                        momentum.thrust as int,
                        momentum.mass as int,
                        enemy.max_energy as int,
                        enemy.recharge_rate as int,
                    ),
                    self.power_range().0,
                    self.power_range().1,
                ),
            ),
    {
        let difficulty: i64 = calc_strength(momentum, enemy);
        let power: (i64, i64) = self.get_power_range();
        colour_of_tier(rate(difficulty, power.0, power.1))
    }

    /// The outline that shows how strong an enemy is: the star for a
    /// strength in the lower half of the rating scale, the dart otherwise,
    /// sized by a radius drawn anew for the enemy's mass. The scale must
    /// have a positive width for its half to mean anything.
    pub fn get_shape(&self, momentum: &Momentum, enemy: &Enemy) -> (p: Polygon)
        requires
            self.wf(),
            momentum.wf(),
            0 <= enemy.max_energy <= LIMIT,
            0 <= enemy.recharge_rate <= LIMIT,
        ensures
            p.closed,
            self.outlines(*momentum, *enemy, p.points@),
    {
        let difficulty: i64 = calc_strength(momentum, enemy);
        let power: (i64, i64) = self.get_power_range();
        let radius: i64 = self.get_radius(momentum.mass);
        let low: bool = rates_low(difficulty, power.0, power.1);
        shape_for(low, radius)
    }
}

} // verus!

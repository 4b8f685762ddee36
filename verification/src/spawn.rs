//! When and where a new enemy enters the field.

use crate::difficulty::{stat_drawn, tier_colour, tier_spec};
use crate::difficulty::{EnemyStrengthRange, Polygon};
use crate::enemy::{strength_spec, Bias, Colour, Enemy, EnemyState};
use crate::fixed::{clamp, clamp_spec, LIMIT};
use crate::movement::{in_world, Field, Momentum, Vec2};
use crate::random::uniform_inclusive;
use crate::resources::{GameTime, Score};
use vstd::prelude::*;

verus! {

/// Milliseconds between two enemies.
pub const SPAWN_INTERVAL: i64 = 5000;

/// Least bias of a new enemy, in thousandths: a half.
pub const BIAS_MIN: i64 = 500;

/// Greatest bias of a new enemy, in thousandths: two.
pub const BIAS_MAX: i64 = 2000;

/// Random places that are tried before the corners of the field are.
pub const SPAWN_ATTEMPTS: u32 = 64;

/// Velocity, along each axis, with which an enemy enters the field.
pub const ENTRY_SPEED: i64 = 100;

/// Spin with which an enemy enters the field.
pub const ENTRY_SPIN: i64 = 2000;

/// Everything that is decided about a new enemy.
#[derive(Clone, Debug)]
pub struct EnemySpawn {
    pub momentum: Momentum,
    pub enemy: Enemy,
    pub radius: i64,
    pub position: Vec2,
    pub colour: Colour,
    pub shape: Polygon,
    pub velocity: Vec2,
    pub spin: i64,
}

/// How an attempt to bring in an enemy ended.
#[derive(Clone, Debug)]
pub enum SpawnOutcome {
    /// No enemy is due in this frame.
    NotDue,
    /// For an enemy of the radius that was drawn, which is handed out, no
    /// place of the field is both inside the walls and far enough from the
    /// player.
    NoRoom(i64),
    /// A new enemy enters.
    Spawned(EnemySpawn),
}

/// Remainder of the division of `time` by the interval, with the sign of
/// `time`.
pub open spec fn phase(time: int) -> int {
    if time < 0 {
        -((-time) % (SPAWN_INTERVAL as int))
    } else {
        time % (SPAWN_INTERVAL as int)
    }
}

/// An enemy is due in the frame in which the game clock has just passed a
/// multiple of the interval: the time since that multiple is less than the
/// time that the frame took.
pub open spec fn spawn_due_spec(time: int, dt: int) -> bool {
    phase(time) < dt
}

/// The bias for a score: a hundredth of the score in points, kept between a
/// half and two.
pub open spec fn bias_spec(score: Score) -> Bias {
    Bias { num: clamp_spec(score.0 / 100, BIAS_MIN as int, BIAS_MAX as int) as i64, den: 1000 }
}

/// The place keeps the enemy's whole disc inside the field.
pub open spec fn inside_walls(field: Field, radius: int, p: Vec2) -> bool {
    &&& -field.half_width + radius <= p.x <= field.half_width - radius
    &&& -field.half_height + radius <= p.y <= field.half_height - radius
}

/// The place is, along at least one axis, more than a fifth of the field's
/// extent along that axis away from the player.
pub open spec fn clear_of_player(field: Field, player: Vec2, p: Vec2) -> bool {
    ||| 5 * (player.x - p.x) > 2 * field.half_width
    ||| 5 * (p.x - player.x) > 2 * field.half_width
    ||| 5 * (player.y - p.y) > 2 * field.half_height
    ||| 5 * (p.y - player.y) > 2 * field.half_height
}

/// A place where an enemy of the given radius may enter.
pub open spec fn valid_spawn(field: Field, player: Vec2, radius: int, p: Vec2) -> bool {
    inside_walls(field, radius, p) && clear_of_player(field, player, p)
}

/// The radius leaves room on both axes of the field.
pub open spec fn radius_fits(field: Field, radius: int) -> bool {
    radius < field.half_width && radius < field.half_height
}

impl Field {
    /// Both half extents are non-negative and within the limit for
    /// configured quantities.
    pub open spec fn wf(self) -> bool {
        &&& 0 <= self.half_width <= LIMIT
        &&& 0 <= self.half_height <= LIMIT
    }

    /// Tells whether the field is well formed.
    pub fn is_valid(&self) -> (ok: bool)
        ensures
            ok == self.wf(),
    {
        0 <= self.half_width && self.half_width <= LIMIT && 0 <= self.half_height
            && self.half_height <= LIMIT
    }

    /// The field of a window of the given width and height.
    pub fn of_window(width: i64, height: i64) -> (f: Self)
        requires
            0 <= width,
            0 <= height,
        ensures
            f.half_width == width / 2,
            f.half_height == height / 2,
    {
        Field { half_width: width / 2, half_height: height / 2 }
    }
}

/// Tells whether an enemy is due in this frame.
pub fn spawn_due(game_time: &GameTime, dt: i64) -> (due: bool)
    ensures
        due == spawn_due_spec(game_time.time as int, dt as int),
{
    let t: i128 = game_time.time as i128;
    let phase: i128 = if t < 0 {
        -((-t) % (SPAWN_INTERVAL as i128))
    } else {
        t % (SPAWN_INTERVAL as i128)
    };
    phase < dt as i128
}

/// The bias with which the stats of the next enemy are drawn.
pub fn spawn_bias(score: &Score) -> (bias: Bias)
    ensures
        bias == bias_spec(*score),
        bias.wf(),
        BIAS_MIN <= bias.num <= BIAS_MAX,
{
    let num: i64 = if score.0 < 0 {
        BIAS_MIN
    } else {
        clamp(score.0 / 100, BIAS_MIN, BIAS_MAX)
    };
    Bias { num, den: 1000 }
}

/// Tells whether a radius leaves room on both axes of the field.
pub fn fits_field(field: &Field, radius: i64) -> (ok: bool)
    ensures
        ok == radius_fits(*field, radius as int),
{
    radius < field.half_width && radius < field.half_height
}

/// Tells whether an enemy of the given radius may enter at `p`.
pub fn accepts_spawn(field: &Field, player: &Vec2, radius: i64, p: &Vec2) -> (ok: bool)
    ensures
        ok == valid_spawn(*field, *player, radius as int, *p),
{
    let hw: i128 = field.half_width as i128;
    let hh: i128 = field.half_height as i128;
    let r: i128 = radius as i128;
    let x: i128 = p.x as i128;
    let y: i128 = p.y as i128;
    let px: i128 = player.x as i128;
    let py: i128 = player.y as i128;
    let inside: bool = -hw + r <= x && x <= hw - r && -hh + r <= y && y <= hh - r;
    let clear: bool = 5 * (px - x) > 2 * hw || 5 * (x - px) > 2 * hw || 5 * (py - y) > 2 * hh || 5
        * (y - py) > 2 * hh;
    inside && clear
}

/// If any place is valid, then so is the corner of the spawn area with the
/// least coordinates or the one with the greatest.
pub proof fn lemma_corner_is_valid(field: Field, player: Vec2, radius: int, p: Vec2)
    requires
        valid_spawn(field, player, radius, p),
        -LIMIT <= radius <= LIMIT,
        field.wf(),
    ensures
        valid_spawn(
            field,
            player,
            radius,
            Vec2 {
                x: (-field.half_width + radius) as i64,
                y: (-field.half_height + radius) as i64,
            },
        ) || valid_spawn(
            field,
            player,
            radius,
            Vec2 {
                x: (field.half_width - radius) as i64,
                y: (field.half_height - radius) as i64,
            },
        ),
{
}

/// A valid place lies within the field, and its distance from the player
/// along the width is more than a fifth of the width of the field, or its
/// distance along the height more than a fifth of the height.
pub proof fn law_spawn_keeps_clear(field: Field, player: Vec2, radius: int, p: Vec2)
    requires
        valid_spawn(field, player, radius, p),
        0 <= radius,
    ensures
        -field.half_width <= p.x <= field.half_width,
        -field.half_height <= p.y <= field.half_height,
        5 * crate::fixed::abs_spec(p.x - player.x) > 2 * field.half_width || 5
            * crate::fixed::abs_spec(p.y - player.y) > 2 * field.half_height,
{
}

/// Picks the place where an enemy of the given radius enters: a random
/// place inside the walls that is clear of the player. After a fixed number
/// of failed draws the two extreme corners of the spawn area are tried, so
/// that a place is found whenever one exists.
pub fn spawn_location(field: &Field, player: &Vec2, radius: i64) -> (place: Option<Vec2>)
    requires
        field.wf(),
        0 <= radius,
        radius_fits(*field, radius as int),
    ensures
        place matches Some(p) ==> valid_spawn(*field, *player, radius as int, p),
        place is None ==> forall|p: Vec2| !valid_spawn(*field, *player, radius as int, p),
{
    let mut tries: u32 = 0;
    while tries < SPAWN_ATTEMPTS
        invariant
            field.wf(),
            0 <= radius,
            radius_fits(*field, radius as int),
        decreases SPAWN_ATTEMPTS - tries,
    {
        let x: i64 = uniform_inclusive(-field.half_width + radius, field.half_width - radius);
        let y: i64 = uniform_inclusive(-field.half_height + radius, field.half_height - radius);
        let candidate = Vec2 { x, y };
        if accepts_spawn(field, player, radius, &candidate) {
            return Some(candidate);
        }
        tries = tries + 1;
    }
    let low = Vec2 { x: -field.half_width + radius, y: -field.half_height + radius };
    let high = Vec2 { x: field.half_width - radius, y: field.half_height - radius };
    if accepts_spawn(field, player, radius, &low) {
        Some(low)
    } else if accepts_spawn(field, player, radius, &high) {
        Some(high)
    } else {
        proof {
            assert forall|p: Vec2| !valid_spawn(*field, *player, radius as int, p) by {
                if valid_spawn(*field, *player, radius as int, p) {
                    lemma_corner_is_valid(*field, *player, radius as int, p);
                }
            }
        }
        None
    }
}

/// No place of the field admits an enemy of the given radius.
pub open spec fn no_room(field: Field, player: Vec2, radius: int) -> bool {
    forall|p: Vec2| !valid_spawn(field, player, radius, p)
}

/// What holds of every enemy that enters: its stats lie within the
/// configured ranges and within what the bias allows, it starts out stopped,
/// its colour is that of its tier, its radius fits the field, and its place
/// is inside the walls and clear of the player.
pub open spec fn spawn_ok(
    range: EnemyStrengthRange,
    bias: Bias,
    field: Field,
    player: Vec2,
    s: EnemySpawn,
) -> bool {
    &&& range.admits(s.momentum, s.enemy)
    &&& stat_drawn(range.max_speed, bias, s.momentum.max_speed as int)
    &&& stat_drawn(range.mass, bias, s.momentum.mass as int)
    &&& stat_drawn(range.thrust, bias, s.momentum.thrust as int)
    &&& stat_drawn(range.lifetime, bias, s.enemy.lifetime.duration as int)
    &&& stat_drawn(range.max_energy, bias, s.enemy.max_energy as int)
    &&& stat_drawn(range.recharge_rate, bias, s.enemy.recharge_rate as int)
    &&& s.momentum.wf()
    &&& s.enemy.wf()
    &&& s.enemy.state == EnemyState::Stopped
    &&& s.enemy.lifetime.elapsed == 0
    &&& !s.enemy.lifetime.finished
    &&& s.enemy.colour == s.colour
    &&& s.colour == tier_colour(
        tier_spec(
            strength_spec(
                s.momentum.max_speed as int,
                s.momentum.thrust as int,
                s.momentum.mass as int,
                s.enemy.max_energy as int,
                s.enemy.recharge_rate as int,
            ),
            range.power_range().0,
            range.power_range().1,
        ),
    )
    &&& stat_drawn(range.radius, range.radius_bias(s.momentum.mass), s.radius as int)
    &&& radius_fits(field, s.radius as int)
    &&& valid_spawn(field, player, s.radius as int, s.position)
    &&& s.shape.closed
    &&& range.outlines(s.momentum, s.enemy, s.shape.points@)
    &&& s.velocity == (Vec2 { x: ENTRY_SPEED, y: ENTRY_SPEED })
    &&& s.spin == ENTRY_SPIN
}

/// Decides whether an enemy enters in this frame, and if so which.
///
/// An enemy is due once per interval of the game clock. Its stats are drawn
/// with the bias of the current score, its radius with its mass. The field
/// must have room for the greatest radius that can be drawn. An enemy for
/// whose radius the field has no valid place does not enter. Otherwise the
/// enemy gets the colour and the outline of its strength and enters at a
/// valid place.
pub fn spawn_enemy(
    range: &EnemyStrengthRange,
    game_time: &GameTime,
    dt: i64,
    score: &Score,
    player: &Vec2,
    field: &Field,
) -> (outcome: SpawnOutcome)
    requires
        range.wf(),
        field.wf(),
        radius_fits(*field, range.radius.1 as int),
    ensures
        outcome is NotDue <==> !spawn_due_spec(game_time.time as int, dt as int),
        outcome matches SpawnOutcome::NoRoom(radius) ==> {
            &&& range.radius.0 <= radius <= range.radius.1
            &&& radius_fits(*field, radius as int)
            &&& no_room(*field, *player, radius as int)
        },
        outcome matches SpawnOutcome::Spawned(s) ==> spawn_ok(
            *range,
            bias_spec(*score),
            *field,
            *player,
            s,
        ),
{
    if !spawn_due(game_time, dt) {
        return SpawnOutcome::NotDue;
    }
    let bias = spawn_bias(score);
    let stats: (Momentum, Enemy) = range.get_enemy_stats(bias);
    let momentum = stats.0;
    let mut enemy = stats.1;
    let radius: i64 = range.get_radius(momentum.mass);
    let place = spawn_location(field, player, radius);
    match place {
        None => {
            assert(no_room(*field, *player, radius as int));
            SpawnOutcome::NoRoom(radius)
        },
        Some(position) => {
            let colour = range.get_colour(&momentum, &enemy);
            enemy.colour = colour;
            let shape = range.get_shape(&momentum, &enemy);
            let s = EnemySpawn {
                momentum,
                enemy,
                radius,
                position,
                colour,
                shape,
                velocity: Vec2 { x: ENTRY_SPEED, y: ENTRY_SPEED },
                spin: ENTRY_SPIN,
            };
            SpawnOutcome::Spawned(s)
        },
    }
}

} // verus!

//! Pigs: bought for money, they wander about in fits and starts and pay
//! off when their time is up.

use crate::fixed::{abs_spec, clamp_wide, floor_sqrt, isqrt, lemma_square_monotone, mul_div};
use crate::fixed::{scale, scale_spec, LIMIT, SCALE};
use crate::movement::{advance, advance_axis, in_world, lemma_component_within_length};
use crate::movement::{lemma_unit_bounded, unit_toward, Field, MoveKeys, Vec2};
use crate::random::uniform_inclusive;
use crate::resources::{accumulated, GameTime, Score};
use crate::spawn::{spawn_due, spawn_due_spec, spawn_location, valid_spawn};
use crate::window::{WINDOW_USABLE_WORLD_WIDTH, WINDOW_WORLD_HEIGHT};
use crate::timer::{Timer, TimerMode};
use vstd::prelude::*;

verus! {

/// The player's money, in thousandths.
#[derive(Clone, Copy, Debug, PartialEq, Eq, Structural)]
pub struct Money(pub i64);

/// One pig.
#[derive(Clone, Copy, Debug, PartialEq, Eq, Structural)]
pub struct Pig {
    /// How long the pig lives.
    pub lifetime: Timer,
    /// Whether the pig walks or stands.
    pub is_moving: bool,
    /// The direction in which the pig walks, in thousandths.
    pub direction: Vec2,
    /// How long the pig walks before it stands still.
    pub stop_timer: Timer,
    /// How long the pig stands before it walks on.
    pub move_timer: Timer,
}

/// A player who is moved about directly, without momentum.
#[derive(Clone, Copy, Debug, PartialEq, Eq, Structural)]
pub struct Player {
    pub speed: i64,
}

/// What a pig costs.
pub const PIG_COST: i64 = 10_000;

/// What a pig pays when its time is up.
pub const PIG_REWARD: i64 = 15_000;

/// How far a pig walks in a second.
pub const PIG_SPEED: i64 = 50_000;

/// How long a bought pig lives, in milliseconds.
pub const PIG_LIFETIME: i64 = 5_000;

/// How long a pig lives that turned up by itself, in milliseconds.
pub const STRAY_PIG_LIFETIME: i64 = 30_000;

/// How long a pig stands between two walks, in milliseconds.
pub const PIG_REST: i64 = 1_000;

/// How long a pig walks at a stretch, in milliseconds.
pub const PIG_WALK: i64 = 500;

/// One over the square root of two, in millionths.
pub const DIAGONAL: i64 = 707_107;

/// The vector of length one in the direction of `v`, in thousandths; the
/// zero vector has no direction and stays as it is.
pub open spec fn normalized(v: Vec2) -> Vec2 {
    let len = floor_sqrt(v.x * v.x + v.y * v.y);
    Vec2 { x: unit_toward(v.x as int, len) as i64, y: unit_toward(v.y as int, len) as i64 }
}

/// A pig as it is bought: standing, with no direction yet.
pub open spec fn bought_pig() -> Pig {
    Pig {
        lifetime: Timer {
            duration: PIG_LIFETIME,
            elapsed: 0,
            finished: false,
            mode: TimerMode::Once,
        },
        is_moving: false,
        direction: Vec2 { x: 0, y: 0 },
        stop_timer: Timer { duration: PIG_WALK, elapsed: 0, finished: false, mode: TimerMode::Once },
        move_timer: Timer {
            duration: PIG_REST,
            elapsed: 0,
            finished: false,
            mode: TimerMode::Repeating,
        },
    }
}

/// How far a pig gets along one axis in `dt` milliseconds.
pub open spec fn pig_stride(direction: int, dt: int) -> int {
    scale_spec(direction, (PIG_SPEED * dt) / (SCALE as int), SCALE as int)
}

/// A pig and its place after `dt` milliseconds, where `fresh` is the
/// direction that it takes up if it turns.
///
/// A walking pig without a direction stands still at once. Otherwise it
/// walks on, and when its walk is over it turns and stands. A standing pig
/// waits, and when its rest is over it turns and walks.
pub open spec fn pig_step(pig: Pig, place: Vec2, dt: int, fresh: Vec2) -> (Pig, Vec2) {
    if pig.is_moving {
        if pig.direction.x == 0 && pig.direction.y == 0 {
            (
                Pig {
                    is_moving: false,
                    stop_timer: Timer { elapsed: 0, finished: false, ..pig.stop_timer },
                    ..pig
                },
                place,
            )
        } else {
            let moved = Vec2 {
                x: advance(place.x as int, pig_stride(pig.direction.x as int, dt)) as i64,
                y: advance(place.y as int, pig_stride(pig.direction.y as int, dt)) as i64,
            };
            let walk = pig.stop_timer.ticked(dt);
            if walk.finished {
                (
                    Pig {
                        direction: fresh,
                        is_moving: false,
                        stop_timer: walk,
                        move_timer: Timer { elapsed: 0, finished: false, ..pig.move_timer },
                        ..pig
                    },
                    moved,
                )
            } else {
                (Pig { stop_timer: walk, ..pig }, moved)
            }
        }
    } else {
        let rest = pig.move_timer.ticked(dt);
        if rest.finished {
            (
                Pig {
                    direction: fresh,
                    is_moving: true,
                    move_timer: rest,
                    stop_timer: Timer { elapsed: 0, finished: false, ..pig.stop_timer },
                    ..pig
                },
                place,
            )
        } else {
            (Pig { move_timer: rest, ..pig }, place)
        }
    }
}

/// The pig turns within `dt` milliseconds.
pub open spec fn pig_turns(pig: Pig, dt: int) -> bool {
    if pig.is_moving {
        !(pig.direction.x == 0 && pig.direction.y == 0) && pig.stop_timer.ticked(dt).finished
    } else {
        pig.move_timer.ticked(dt).finished
    }
}

/// How far a directly moved player gets along one axis: the full amount
/// along a single axis, and that amount over the square root of two along
/// each axis of a diagonal.
pub open spec fn walk_axis(forward: bool, backward: bool, diagonal: bool, amount: int) -> int {
    let along = (if forward {
        amount
    } else {
        0
    }) - (if backward {
        amount
    } else {
        0
    });
    if diagonal {
        scale_spec(along, DIAGONAL as int, 1_000_000)
    } else {
        along
    }
}

impl Default for Money {
    /// A player starts with a hundred.
    fn default() -> (m: Self)
        ensures
            m == Money(100_000),
    {
        Money(100_000)
    }
}

impl Pig {
    /// Timers and direction are well formed.
    pub open spec fn wf(self) -> bool {
        &&& self.lifetime.wf()
        &&& self.stop_timer.wf()
        &&& self.move_timer.wf()
        &&& -SCALE <= self.direction.x <= SCALE
        &&& -SCALE <= self.direction.y <= SCALE
    }

    /// Tells whether the pig is well formed.
    pub fn is_valid(&self) -> (ok: bool)
        ensures
            ok == self.wf(),
    {
        self.lifetime.is_valid() && self.stop_timer.is_valid() && self.move_timer.is_valid()
            && -SCALE <= self.direction.x && self.direction.x <= SCALE && -SCALE
            <= self.direction.y && self.direction.y <= SCALE
    }

    /// A pig as it is bought.
    pub fn bought() -> (pig: Self)
        ensures
            pig == bought_pig(),
            pig.wf(),
    {
        Pig {
            lifetime: Timer::new(PIG_LIFETIME, TimerMode::Once),
            is_moving: false,
            direction: Vec2 { x: 0, y: 0 },
            stop_timer: Timer::new(PIG_WALK, TimerMode::Once),
            move_timer: Timer::new(PIG_REST, TimerMode::Repeating),
        }
    }
}

/// Scales a vector to length one.
pub fn normalize(v: &Vec2) -> (unit: Vec2)
    requires
        -LIMIT <= v.x <= LIMIT,
        -LIMIT <= v.y <= LIMIT,
    ensures
        unit == normalized(*v),
        -SCALE <= unit.x <= SCALE,
        -SCALE <= unit.y <= SCALE,
{
    proof {
        let x = v.x as int;
        let y = v.y as int;
        assert(0 <= x * x <= LIMIT * LIMIT) by (nonlinear_arith)
            requires
                -LIMIT <= x <= LIMIT,
        ;
        assert(0 <= y * y <= LIMIT * LIMIT) by (nonlinear_arith)
            requires
                -LIMIT <= y <= LIMIT,
        ;
    }
    let squared: i128 = (v.x as i128) * (v.x as i128) + (v.y as i128) * (v.y as i128);
    let root: u128 = isqrt(squared as u128);
    proof {
        lemma_component_within_length(v.x as int, v.y as int, root as int);
        lemma_component_within_length(v.y as int, v.x as int, root as int);
        if root > 2 * LIMIT {
            lemma_square_monotone(2 * LIMIT as int, root as int);
        }
    }
    let len: i64 = root as i64;
    if len == 0 {
        Vec2 { x: 0, y: 0 }
    } else {
        proof {
            lemma_unit_bounded(v.x as int, len as int);
            lemma_unit_bounded(v.y as int, len as int);
        }
        Vec2 { x: scale(v.x, SCALE, len), y: scale(v.y, SCALE, len) }
    }
}

/// A direction picked at random: both coordinates are drawn between minus
/// one and one, and the vector is scaled to length one.
pub fn random_direction() -> (unit: Vec2)
    ensures
        -SCALE <= unit.x <= SCALE,
        -SCALE <= unit.y <= SCALE,
        exists|v: Vec2|
            -SCALE <= v.x <= SCALE && -SCALE <= v.y <= SCALE && unit == #[trigger] normalized(v),
{
    let x: i64 = uniform_inclusive(-SCALE, SCALE);
    let y: i64 = uniform_inclusive(-SCALE, SCALE);
    let v = Vec2 { x, y };
    normalize(&v)
}

/// Buys a pig when the buy key has just been pressed and the money
/// suffices: the price is paid and the pig appears where the player is.
pub fn spawn_pig(buy_pressed: bool, money: &mut Money, player: &Vec2) -> (bought: Option<
    (Pig, Vec2),
>)
    ensures
        buy_pressed && old(money).0 >= PIG_COST ==> bought == Some((bought_pig(), *player))
            && final(money).0 == old(money).0 - PIG_COST,
        !(buy_pressed && old(money).0 >= PIG_COST) ==> bought is None && *final(money) == *old(
            money,
        ),
{
    if !buy_pressed {
        return None;
    }
    if money.0 < PIG_COST {
        return None;
    }
    money.0 = money.0 - PIG_COST;
    Some((Pig::bought(), *player))
}

/// Lets `dt` milliseconds of a pig's life pass. When its time is up the
/// pig is sold: its price is added to the money, and the pig is to be
/// removed.
pub fn pig_lifetime(pig: &mut Pig, dt: i64, money: &mut Money) -> (sold: bool)
    requires
        old(pig).lifetime.wf(),
        0 <= dt <= LIMIT,
    ensures
        *final(pig) == (Pig { lifetime: old(pig).lifetime.ticked(dt as int), ..*old(pig) }),
        sold == old(pig).lifetime.ticked(dt as int).finished,
        final(money).0 == (if sold {
            accumulated(old(money).0 as int, PIG_REWARD as int)
        } else {
            old(money).0 as int
        }),
{
    pig.lifetime.tick(dt);
    if pig.lifetime.finished() {
        money.0 = clamp_wide(
            money.0 as i128 + PIG_REWARD as i128,
            i64::MIN,
            i64::MAX,
        );
        true
    } else {
        false
    }
}

/// How far a pig gets along one axis in `dt` milliseconds.
fn stride(direction: i64, dt: i64) -> (s: i64)
    requires
        -SCALE <= direction <= SCALE,
        0 <= dt <= LIMIT,
    ensures
        s == pig_stride(direction as int, dt as int),
{
    let per_tick: i64 = PIG_SPEED * dt / SCALE;
    proof {
        let a = abs_spec(direction as int);
        let p = per_tick as int;
        assert(0 <= a * p <= SCALE * (50 * LIMIT)) by (nonlinear_arith)
            requires
                0 <= a <= SCALE,
                0 <= p <= 50 * LIMIT,
        ;
    }
    scale(direction, per_tick, SCALE)
}

/// Lets a pig wander for `dt` milliseconds, taking up the direction `fresh`
/// if it turns.
pub fn pig_walk(pig: &mut Pig, place: &mut Vec2, dt: i64, fresh: Vec2)
    requires
        old(pig).wf(),
        0 <= dt <= LIMIT,
        -SCALE <= fresh.x <= SCALE,
        -SCALE <= fresh.y <= SCALE,
    ensures
        (*final(pig), *final(place)) == pig_step(*old(pig), *old(place), dt as int, fresh),
        final(pig).wf(),
{
    if pig.is_moving {
        if pig.direction.x == 0 && pig.direction.y == 0 {
            pig.is_moving = false;
            pig.stop_timer.reset();
        } else {
            place.x = advance_axis(place.x, stride(pig.direction.x, dt));
            place.y = advance_axis(place.y, stride(pig.direction.y, dt));
            pig.stop_timer.tick(dt);
            if pig.stop_timer.finished() {
                pig.direction = fresh;
                pig.is_moving = false;
                pig.move_timer.reset();
            }
        }
    } else {
        pig.move_timer.tick(dt);
        if pig.move_timer.finished() {
            pig.direction = fresh;
            pig.is_moving = true;
            pig.stop_timer.reset();
        }
    }
}

/// Tells whether a pig turns within `dt` milliseconds.
pub fn turns(pig: &Pig, dt: i64) -> (yes: bool)
    requires
        pig.wf(),
        0 <= dt <= LIMIT,
    ensures
        yes == pig_turns(*pig, dt as int),
{
    if pig.is_moving {
        if pig.direction.x == 0 && pig.direction.y == 0 {
            false
        } else {
            let mut walk: Timer = pig.stop_timer;
            walk.tick(dt);
            walk.finished()
        }
    } else {
        let mut rest: Timer = pig.move_timer;
        rest.tick(dt);
        rest.finished()
    }
}

/// Lets a pig wander for `dt` milliseconds: it walks and stands by turns,
/// and takes up a new random direction each time it turns.
pub fn pig_movement(pig: &mut Pig, place: &mut Vec2, dt: i64)
    requires
        old(pig).wf(),
        0 <= dt <= LIMIT,
    ensures
        (*final(pig), *final(place)) == pig_step(
            *old(pig),
            *old(place),
            dt as int,
            final(pig).direction,
        ),
        final(pig).wf(),
        !pig_turns(*old(pig), dt as int) ==> final(pig).direction == old(pig).direction,
{
    let fresh: Vec2 = if turns(pig, dt) {
        random_direction()
    } else {
        pig.direction
    };
    pig_walk(pig, place, dt, fresh);
}

/// Moves a player directly for `dt` milliseconds: each held direction
/// moves it by its speed, and a diagonal is shortened so that the player is
/// as fast in every direction.
pub fn character_movement(player: &Player, keys: &MoveKeys, place: &mut Vec2, dt: i64)
    requires
        0 <= player.speed <= LIMIT,
        0 <= dt <= LIMIT,
    ensures
        ({
            let amount = (player.speed * dt) / (SCALE as int);
            let diagonal = keys.up != keys.down && keys.left != keys.right;
            &&& final(place).x == advance(
                old(place).x as int,
                walk_axis(keys.right, keys.left, diagonal, amount),
            )
            &&& final(place).y == advance(
                old(place).y as int,
                walk_axis(keys.up, keys.down, diagonal, amount),
            )
        }),
{
    proof {
        let s = player.speed as int;
        let d = dt as int;
        assert(0 <= s * d <= LIMIT * LIMIT) by (nonlinear_arith)
            requires
                0 <= s <= LIMIT,
                0 <= d <= LIMIT,
        ;
    }
    let amount: i64 = mul_div(player.speed, dt, SCALE);
    let mut x: i64 = 0;
    let mut y: i64 = 0;
    if keys.up {
        y = y + amount;
    }
    if keys.down {
        y = y - amount;
    }
    if keys.left {
        x = x - amount;
    }
    if keys.right {
        x = x + amount;
    }
    if x != 0 && y != 0 {
        proof {
            let a = amount as int;
            assert(0 <= a * DIAGONAL <= (LIMIT * LIMIT) * DIAGONAL) by (nonlinear_arith)
                requires
                    0 <= a <= LIMIT * LIMIT,
            ;
        }
        x = scale(x, DIAGONAL, 1_000_000);
        y = scale(y, DIAGONAL, 1_000_000);
    }
    place.x = advance_axis(place.x, x);
    place.y = advance_axis(place.y, y);
}

/// A pig as it turns up by itself: standing, and facing the given way.
pub open spec fn stray_pig(direction: Vec2) -> Pig {
    Pig {
        lifetime: Timer {
            duration: STRAY_PIG_LIFETIME,
            elapsed: 0,
            finished: false,
            mode: TimerMode::Once,
        },
        direction,
        ..bought_pig()
    }
}

/// A place where a pig may turn up: inside the world that the window
/// shows, whose corner is the origin, and along at least one axis more than
/// a fifth of the world's extent away from the player.
pub open spec fn valid_pig_place(player: Vec2, p: Vec2) -> bool {
    &&& 0 <= p.x <= WINDOW_USABLE_WORLD_WIDTH
    &&& 0 <= p.y <= WINDOW_WORLD_HEIGHT
    &&& (5 * (player.x - p.x) > WINDOW_USABLE_WORLD_WIDTH || 5 * (p.x - player.x)
        > WINDOW_USABLE_WORLD_WIDTH || 5 * (player.y - p.y) > WINDOW_WORLD_HEIGHT || 5 * (p.y
        - player.y) > WINDOW_WORLD_HEIGHT)
}

/// Lets a pig turn up by itself once per interval of the game clock, at a
/// random place clear of the player and facing a random way.
pub fn spawn_stray_pig(game_time: &GameTime, dt: i64, player: &Vec2) -> (stray: Option<
    (Pig, Vec2),
>)
    requires
        in_world(*player),
    ensures
        stray is Some <==> spawn_due_spec(game_time.time as int, dt as int),
        stray matches Some((pig, place)) ==> {
            &&& pig == stray_pig(pig.direction)
            &&& pig.wf()
            &&& valid_pig_place(*player, place)
        },
{
    if !spawn_due(game_time, dt) {
        return None;
    }
    let half_width: i64 = WINDOW_USABLE_WORLD_WIDTH / 2;
    let half_height: i64 = WINDOW_WORLD_HEIGHT / 2;
    let field = Field { half_width, half_height };
    let centred = Vec2 { x: player.x - half_width, y: player.y - half_height };
    match spawn_location(&field, &centred, 0) {
        Some(p) => {
            let pig = Pig {
                lifetime: Timer::new(STRAY_PIG_LIFETIME, TimerMode::Once),
                is_moving: false,
                direction: random_direction(),
                stop_timer: Timer::new(PIG_WALK, TimerMode::Once),
                move_timer: Timer::new(PIG_REST, TimerMode::Repeating),
            };
            Some((pig, Vec2 { x: p.x + half_width, y: p.y + half_height }))
        },
        None => {
            proof {
                let low = Vec2 { x: (-half_width) as i64, y: (-half_height) as i64 };
                let high = Vec2 { x: half_width, y: half_height };
                assert(valid_spawn(field, centred, 0, low) || valid_spawn(field, centred, 0, high));
            }
            None
        },
    }
}

/// Lets `dt` milliseconds of a stray pig's life pass. When its time is up
/// the player has outlived it: its price is added to the score, and the pig
/// is to be removed.
pub fn stray_pig_lifetime(pig: &mut Pig, dt: i64, score: &mut Score) -> (gone: bool)
    requires
        old(pig).lifetime.wf(),
        0 <= dt <= LIMIT,
    ensures
        *final(pig) == (Pig { lifetime: old(pig).lifetime.ticked(dt as int), ..*old(pig) }),
        gone == old(pig).lifetime.ticked(dt as int).finished,
        final(score).0 == (if gone {
            accumulated(old(score).0 as int, PIG_REWARD as int)
        } else {
            old(score).0 as int
        }),
{
    pig.lifetime.tick(dt);
    if pig.lifetime.finished() {
        score.award(PIG_REWARD);
        true
    } else {
        false
    }
}

} // verus!

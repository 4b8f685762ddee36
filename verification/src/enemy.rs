//! Enemies: their energy cycle, their strength, and what a hit costs them.

use crate::fixed::{clamp, clamp_spec, lemma_div_monotone, mul_div, scale, scale_spec};
use crate::fixed::{abs_spec, LIMIT, SCALE};
use crate::events::{ShipDestroyed, ShipHit};
use crate::movement::{Momentum, Vec2};
use crate::resources::{accumulated, Score};
use crate::random::uniform_inclusive;
use crate::timer::{Timer, TimerMode};
use vstd::prelude::*;

verus! {

/// Whether an enemy is recharging or chasing.
#[derive(Clone, Copy, Debug, PartialEq, Eq, Structural)]
pub enum EnemyState {
    /// Switched off: recharges and harms nobody.
    Stopped,
    /// Chases the player and spends energy.
    Moving,
}

/// A colour by its red, green and blue channels.
#[derive(Clone, Copy, Debug, PartialEq, Eq, Structural)]
pub struct Colour {
    pub r: i64,
    pub g: i64,
    pub b: i64,
}

/// One enemy.
#[derive(Clone, Copy, Debug, PartialEq, Eq, Structural)]
pub struct Enemy {
    /// How long the enemy lives while it moves.
    pub lifetime: Timer,
    /// The energy left before the enemy has to stop and recharge.
    pub energy: i64,
    /// The energy of a full charge.
    pub max_energy: i64,
    /// Energy gained per second while stopped.
    pub recharge_rate: i64,
    /// Whether the enemy recharges or chases.
    pub state: EnemyState,
    /// The colour of the enemy's difficulty tier.
    pub colour: Colour,
    /// Hits that the enemy can still take.
    pub health: u8,
}

/// The colour that an enemy has until its tier is known.
pub open spec fn unset_colour() -> Colour {
    Colour { r: 255_000, g: 0, b: 0 }
}

/// Hits that a new enemy can take.
pub const START_HEALTH: u8 = 4;

/// The part of a full charge that one hit costs: one fifth.
pub const HIT_PENALTY_DIVISOR: i64 = 5;

/// Strength of an enemy: top speed times thrust over mass, plus the energy
/// of a full charge, plus the recharge rate.
pub open spec fn strength_spec(
    max_speed: int,
    thrust: int,
    mass: int,
    max_energy: int,
    recharge_rate: int,
) -> int {
    (max_speed * thrust) / mass + max_energy + recharge_rate
}

/// What an enemy is at birth, given the energy that it starts with.
pub open spec fn newborn(lifetime: int, max_energy: int, recharge_rate: int, energy: int) -> Enemy {
    Enemy {
        lifetime: Timer {
            duration: lifetime as i64,
            elapsed: 0,
            finished: false,
            mode: TimerMode::Once,
        },
        energy: energy as i64,
        max_energy: max_energy as i64,
        recharge_rate: recharge_rate as i64,
        state: EnemyState::Stopped,
        colour: unset_colour(),
        health: START_HEALTH,
    }
}

impl EnemyState {
    /// Tells whether this is the moving state.
    pub fn is_moving(&self) -> (m: bool)
        ensures
            m == (*self == EnemyState::Moving),
    {
        match self {
            EnemyState::Moving => true,
            EnemyState::Stopped => false,
        }
    }
}

impl Default for EnemyState {
    /// An enemy starts out stopped.
    fn default() -> (s: Self)
        ensures
            s == EnemyState::Stopped,
    {
        EnemyState::Stopped
    }
}

impl Enemy {
    /// The energy lies between empty and a full charge, and all quantities
    /// are non-negative and within the limit for configured quantities.
    pub open spec fn wf(self) -> bool {
        &&& self.lifetime.wf()
        &&& self.lifetime.mode == TimerMode::Once
        &&& 0 <= self.energy <= self.max_energy <= LIMIT
        &&& 0 <= self.recharge_rate <= LIMIT
    }

    /// Tells whether the enemy is well formed.
    pub fn is_valid(&self) -> (ok: bool)
        ensures
            ok == self.wf(),
    {
        let once: bool = match self.lifetime.mode {
            TimerMode::Once => true,
            TimerMode::Repeating => false,
        };
        self.lifetime.is_valid() && once && 0 <= self.energy && self.energy <= self.max_energy
            && self.max_energy <= LIMIT && 0 <= self.recharge_rate && self.recharge_rate <= LIMIT
    }

    /// An enemy at birth with a given starting energy: stopped, with full
    /// health, its lifetime not yet begun.
    pub fn with_energy(lifetime: i64, max_energy: i64, recharge_rate: i64, energy: i64) -> (e: Self)
        ensures
            e == newborn(lifetime as int, max_energy as int, recharge_rate as int, energy as int),
            0 <= lifetime <= LIMIT && 0 <= energy <= max_energy <= LIMIT && 0 <= recharge_rate
                <= LIMIT ==> e.wf(),
    {
        Enemy {
            lifetime: Timer::new(lifetime, TimerMode::Once),
            energy,
            max_energy,
            recharge_rate,
            state: EnemyState::Stopped,
            colour: Colour { r: 255_000, g: 0, b: 0 },
            health: START_HEALTH,
        }
    }

    /// An enemy at birth. It starts with a random part of its full charge,
    /// anywhere from none to all of it.
    pub fn new(lifetime: i64, max_energy: i64, recharge_rate: i64) -> (e: Self)
        requires
            0 <= max_energy,
        ensures
            0 <= e.energy <= max_energy,
            e == newborn(
                lifetime as int,
                max_energy as int,
                recharge_rate as int,
                e.energy as int,
            ),
            0 <= lifetime <= LIMIT && max_energy <= LIMIT && 0 <= recharge_rate <= LIMIT
                ==> e.wf(),
    {
        let energy: i64 = uniform_inclusive(0, max_energy);
        Enemy::with_energy(lifetime, max_energy, recharge_rate, energy)
    }
}

/// The strength of well-formed stats fits the number type.
pub proof fn lemma_strength_bounded(
    max_speed: int,
    thrust: int,
    mass: int,
    max_energy: int,
    recharge_rate: int,
)
    requires
        0 <= max_speed <= LIMIT,
        0 <= thrust <= LIMIT,
        0 < mass,
        0 <= max_energy <= LIMIT,
        0 <= recharge_rate <= LIMIT,
    ensures
        0 <= (max_speed * thrust) / mass <= LIMIT * LIMIT,
        0 <= strength_spec(max_speed, thrust, mass, max_energy, recharge_rate) <= LIMIT * LIMIT
            + 2 * LIMIT,
{
    assert(0 <= max_speed * thrust <= LIMIT * LIMIT) by (nonlinear_arith)
        requires
            0 <= max_speed <= LIMIT,
            0 <= thrust <= LIMIT,
    ;
    lemma_div_monotone(max_speed * thrust, max_speed * thrust, 1, mass);
}

/// Strength from the five stats that it depends on.
pub fn strength_of(
    max_speed: i64,
    thrust: i64,
    mass: i64,
    max_energy: i64,
    recharge_rate: i64,
) -> (s: i64)
    requires
        0 <= max_speed <= LIMIT,
        0 <= thrust <= LIMIT,
        0 < mass,
        0 <= max_energy <= LIMIT,
        0 <= recharge_rate <= LIMIT,
    ensures
        s == strength_spec(
            max_speed as int,
            thrust as int,
            mass as int,
            max_energy as int,
            recharge_rate as int,
        ),
        0 <= s,
{
    proof {
        lemma_strength_bounded(
            max_speed as int,
            thrust as int,
            mass as int,
            max_energy as int,
            recharge_rate as int,
        );
    }
    mul_div(max_speed, thrust, mass) + max_energy + recharge_rate
}

/// Strength of an enemy from its momentum and its energy stats.
pub fn calc_strength(momentum: &Momentum, enemy: &Enemy) -> (s: i64)
    requires
        momentum.wf(),
        0 <= enemy.max_energy <= LIMIT,
        0 <= enemy.recharge_rate <= LIMIT,
    ensures
        s == strength_spec(
            momentum.max_speed as int,
            momentum.thrust as int,
            momentum.mass as int,
            enemy.max_energy as int,
            enemy.recharge_rate as int,
        ),
        0 <= s,
{
    strength_of(
        momentum.max_speed,
        momentum.thrust,
        momentum.mass,
        enemy.max_energy,
        enemy.recharge_rate,
    )
}

/// Strength never falls when top speed, thrust, full charge or recharge rate
/// grow, and never rises when mass grows.
pub proof fn law_strength_monotone(
    speed_a: int,
    thrust_a: int,
    mass_a: int,
    energy_a: int,
    rate_a: int,
    speed_b: int,
    thrust_b: int,
    mass_b: int,
    energy_b: int,
    rate_b: int,
)
    requires
        0 <= speed_a <= speed_b,
        0 <= thrust_a <= thrust_b,
        0 < mass_b <= mass_a,
        energy_a <= energy_b,
        rate_a <= rate_b,
    ensures
        strength_spec(speed_a, thrust_a, mass_a, energy_a, rate_a) <= strength_spec(
            speed_b,
            thrust_b,
            mass_b,
            energy_b,
            rate_b,
        ),
{
    assert(0 <= speed_a * thrust_a <= speed_b * thrust_b) by (nonlinear_arith)
        requires
            0 <= speed_a <= speed_b,
            0 <= thrust_a <= thrust_b,
    ;
    lemma_div_monotone(speed_a * thrust_a, speed_b * thrust_b, mass_b, mass_a);
}

/// A positive factor by which the top of a range is scaled, as a fraction.
#[derive(Clone, Copy, Debug, PartialEq, Eq, Structural)]
pub struct Bias {
    pub num: i64,
    pub den: i64,
}

impl Bias {
    /// Both parts are positive and within the limit for configured
    /// quantities.
    pub open spec fn wf(self) -> bool {
        &&& 0 < self.num <= LIMIT
        &&& 0 < self.den <= LIMIT
    }

    /// Tells whether the bias is well formed.
    pub fn is_valid(&self) -> (ok: bool)
        ensures
            ok == self.wf(),
    {
        0 < self.num && self.num <= LIMIT && 0 < self.den && self.den <= LIMIT
    }
}

/// The top of the interval that `randomize` draws from: the top of the range
/// scaled by the bias, but never below the bottom of the range.
pub open spec fn scaled_upper(range: (i64, i64), bias: Bias) -> int {
    let scaled = scale_spec(range.1 as int, bias.num as int, bias.den as int);
    if scaled < range.0 {
        range.0 as int
    } else {
        scaled
    }
}

/// The scaled top of a range fits the number type.
pub proof fn lemma_scaled_fits(top: int, bias: Bias)
    requires
        -LIMIT <= top <= LIMIT,
        bias.wf(),
    ensures
        0 <= (abs_spec(top) * bias.num) / (bias.den as int) <= LIMIT * LIMIT,
{
    let a = abs_spec(top);
    let n = bias.num as int;
    assert(0 <= a * n <= LIMIT * LIMIT) by (nonlinear_arith)
        requires
            0 <= a <= LIMIT,
            0 < n <= LIMIT,
    ;
    lemma_div_monotone(a * n, a * n, 1, bias.den as int);
}

/// A random number between the bottom of the range and its top scaled by
/// the bias.
pub fn randomize(range: (i64, i64), bias: Bias) -> (r: i64)
    requires
        0 < range.0,
        -LIMIT <= range.1 <= LIMIT,
        bias.wf(),
    ensures
        range.0 <= r <= scaled_upper(range, bias),
{
    proof {
        lemma_scaled_fits(range.1 as int, bias);
    }
    let scaled: i64 = scale(range.1, bias.num, bias.den);
    let upper: i64 = if scaled < range.0 {
        range.0
    } else {
        scaled
    };
    uniform_inclusive(range.0, upper)
}

/// What one tick did to an enemy.
#[derive(Clone, Copy, Debug, PartialEq, Eq, Structural)]
pub enum LifeEvent {
    /// The enemy stays in its state.
    Steady,
    /// The enemy is fully charged and starts to move.
    Woke,
    /// The enemy has run out of energy and stops.
    Tired,
    /// The enemy's lifetime is over: it leaves the field and the player is
    /// rewarded with its strength.
    Expired,
}

/// Energy gained by a stopped enemy in `dt` milliseconds: its recharge rate
/// over that time, but at most one full charge.
pub open spec fn recharge_gain(e: Enemy, dt: int) -> int {
    clamp_spec((e.recharge_rate * dt) / (SCALE as int), 0, e.max_energy as int)
}

/// Energy of a stopped enemy after `dt` milliseconds; a charge is never
/// more than full.
pub open spec fn recharged(e: Enemy, dt: int) -> int {
    if e.energy + recharge_gain(e, dt) > e.max_energy {
        e.max_energy as int
    } else {
        e.energy + recharge_gain(e, dt)
    }
}

/// Energy of a moving enemy after `dt` milliseconds: one unit less per
/// second, and never below empty.
pub open spec fn drained(e: Enemy, dt: int) -> int {
    clamp_spec(e.energy - dt, 0, e.max_energy as int)
}

/// Energy after a hit: a fifth of a full charge less, and never below empty.
pub open spec fn hit_energy(e: Enemy) -> int {
    if e.energy - e.max_energy / HIT_PENALTY_DIVISOR < 0 {
        0
    } else {
        e.energy - e.max_energy / HIT_PENALTY_DIVISOR
    }
}

/// One tick of an enemy's life.
///
/// A stopped enemy recharges, and starts to move once its charge is full. A
/// moving enemy spends energy and lifetime; it stops once its energy is
/// spent, and otherwise expires once its lifetime is over.
pub open spec fn life_step(e: Enemy, dt: int) -> (Enemy, LifeEvent) {
    match e.state {
        EnemyState::Stopped => {
            let energy = recharged(e, dt) as i64;
            if energy >= e.max_energy {
                (Enemy { energy, state: EnemyState::Moving, ..e }, LifeEvent::Woke)
            } else {
                (Enemy { energy, ..e }, LifeEvent::Steady)
            }
        },
        EnemyState::Moving => {
            let energy = drained(e, dt) as i64;
            let lifetime = e.lifetime.ticked(dt);
            if energy <= 0 {
                (Enemy { energy, lifetime, state: EnemyState::Stopped, ..e }, LifeEvent::Tired)
            } else if lifetime.finished {
                (Enemy { energy, lifetime, ..e }, LifeEvent::Expired)
            } else {
                (Enemy { energy, lifetime, ..e }, LifeEvent::Steady)
            }
        },
    }
}

impl Enemy {
    /// Lets `dt` milliseconds pass for this enemy and tells what happened.
    pub fn step(&mut self, dt: i64) -> (event: LifeEvent)
        requires
            old(self).wf(),
            0 <= dt <= LIMIT,
        ensures
            (*final(self), event) == life_step(*old(self), dt as int),
            final(self).wf(),
    {
        match self.state {
            EnemyState::Stopped => {
                proof {
                    let r = self.recharge_rate as int;
                    let d = dt as int;
                    assert(0 <= r * d <= LIMIT * LIMIT) by (nonlinear_arith)
                        requires
                            0 <= r <= LIMIT,
                            0 <= d <= LIMIT,
                    ;
                }
                let gain: i64 = clamp(mul_div(self.recharge_rate, dt, SCALE), 0, self.max_energy);
                let sum: i64 = self.energy + gain;
                self.energy = if sum > self.max_energy {
                    self.max_energy
                } else {
                    sum
                };
                if self.energy >= self.max_energy {
                    self.state = EnemyState::Moving;
                    LifeEvent::Woke
                } else {
                    LifeEvent::Steady
                }
            },
            EnemyState::Moving => {
                self.energy = clamp(self.energy - dt, 0, self.max_energy);
                self.lifetime.tick(dt);
                if self.energy <= 0 {
                    self.state = EnemyState::Stopped;
                    LifeEvent::Tired
                } else if self.lifetime.finished() {
                    LifeEvent::Expired
                } else {
                    LifeEvent::Steady
                }
            },
        }
    }

    /// Takes a hit: the enemy loses a fifth of a full charge, down to empty
    /// at most. Its state is left as it is.
    pub fn hit(&mut self)
        requires
            old(self).wf(),
        ensures
            *final(self) == (Enemy { energy: hit_energy(*old(self)) as i64, ..*old(self) }),
            final(self).wf(),
    {
        let left: i64 = self.energy - self.max_energy / HIT_PENALTY_DIVISOR;
        self.energy = if left < 0 {
            0
        } else {
            left
        };
    }
}

/// An enemy that was stopped moves after a tick only if its charge is then
/// full, and one that was moving is stopped after a tick only if its energy
/// is then spent; a hit never changes the state.
pub proof fn law_state_changes_at_energy_ends(e: Enemy, dt: int)
    requires
        e.wf(),
        0 <= dt,
    ensures
        e.state == EnemyState::Stopped && life_step(e, dt).0.state == EnemyState::Moving
            ==> life_step(e, dt).0.energy >= e.max_energy,
        e.state == EnemyState::Moving && life_step(e, dt).0.state == EnemyState::Stopped
            ==> life_step(e, dt).0.energy <= 0,
        e.state == EnemyState::Stopped ==> (life_step(e, dt).0.state == EnemyState::Moving
            <==> recharged(e, dt) >= e.max_energy),
        e.state == EnemyState::Moving ==> (life_step(e, dt).0.state == EnemyState::Stopped
            <==> drained(e, dt) <= 0),
        0 <= life_step(e, dt).0.energy <= e.max_energy,
        life_step(e, dt).0.max_energy == e.max_energy,
{
}

/// An enemy on the field: who it is, where it is, and what it can do.
#[derive(Clone, Copy, Debug, PartialEq, Eq, Structural)]
pub struct Ship {
    pub id: u64,
    pub position: Vec2,
    pub momentum: Momentum,
    pub enemy: Enemy,
}

impl Ship {
    /// Momentum and enemy are well formed.
    pub open spec fn wf(self) -> bool {
        self.momentum.wf() && self.enemy.wf()
    }

    /// The ship after `dt` milliseconds of its enemy's life.
    pub open spec fn aged(self, dt: int) -> Ship {
        Ship { enemy: life_step(self.enemy, dt).0, ..self }
    }

    /// What `dt` milliseconds do to the ship's enemy.
    pub open spec fn event(self, dt: int) -> LifeEvent {
        life_step(self.enemy, dt).1
    }

    /// The reward for outliving this ship: its strength.
    pub open spec fn reward(self) -> int {
        strength_spec(
            self.momentum.max_speed as int,
            self.momentum.thrust as int,
            self.momentum.mass as int,
            self.enemy.max_energy as int,
            self.enemy.recharge_rate as int,
        )
    }

    /// The ship after as many hits as there are signals for it.
    pub open spec fn battered(self, hits: Seq<ShipHit>) -> Ship
        decreases hits.len(),
    {
        if hits.len() == 0 {
            self
        } else {
            let before = self.battered(hits.drop_last());
            if hits.last().id == self.id {
                Ship {
                    enemy: Enemy { energy: hit_energy(before.enemy) as i64, ..before.enemy },
                    ..before
                }
            } else {
                before
            }
        }
    }

    /// Tells whether the ship is well formed.
    pub fn is_valid(&self) -> (ok: bool)
        ensures
            ok == self.wf(),
    {
        self.momentum.is_valid() && self.enemy.is_valid()
    }

    /// The signal that tells of this ship's end.
    pub fn wreck(&self) -> (event: ShipDestroyed)
        ensures
            event == (ShipDestroyed {
                x: self.position.x,
                y: self.position.y,
                colour: self.enemy.colour,
            }),
    {
        ShipDestroyed { x: self.position.x, y: self.position.y, colour: self.enemy.colour }
    }
}

/// The ships among the first `n` whose lifetime ends within `dt`
/// milliseconds, by their place in the list, in rising order.
pub open spec fn expired_upto(ships: Seq<Ship>, dt: int, n: int) -> Seq<usize>
    decreases n,
{
    if n <= 0 {
        Seq::<usize>::empty()
    } else if ships[n - 1].event(dt) == LifeEvent::Expired {
        expired_upto(ships, dt, n - 1).push((n - 1) as usize)
    } else {
        expired_upto(ships, dt, n - 1)
    }
}

/// The sum of the rewards for the ships among the first `n` whose lifetime
/// ends within `dt` milliseconds.
pub open spec fn reward_upto(ships: Seq<Ship>, dt: int, n: int) -> int
    decreases n,
{
    if n <= 0 {
        0
    } else if ships[n - 1].event(dt) == LifeEvent::Expired {
        reward_upto(ships, dt, n - 1) + ships[n - 1].reward()
    } else {
        reward_upto(ships, dt, n - 1)
    }
}

/// Rewards are never negative.
pub proof fn lemma_reward_upto_nonnegative(ships: Seq<Ship>, dt: int, n: int)
    requires
        0 <= n <= ships.len(),
        forall|j: int| 0 <= j < ships.len() ==> (#[trigger] ships[j]).wf(),
    ensures
        0 <= reward_upto(ships, dt, n),
    decreases n,
{
    if n > 0 {
        lemma_reward_upto_nonnegative(ships, dt, n - 1);
        let s = ships[n - 1];
        lemma_strength_bounded(
            s.momentum.max_speed as int,
            s.momentum.thrust as int,
            s.momentum.mass as int,
            s.enemy.max_energy as int,
            s.enemy.recharge_rate as int,
        );
    }
}

/// Lets `dt` milliseconds pass for the enemies, in the order of the list.
///
/// Every enemy takes one step of its own life, whatever the others do. The
/// enemies whose lifetime ends are handed out by their place in the list,
/// in rising order, and the strength of each is added to the score.
pub fn enemy_lifetime(ships: &mut Vec<Ship>, dt: i64, score: &mut Score) -> (expired: Vec<usize>)
    requires
        forall|j: int| 0 <= j < old(ships)@.len() ==> (#[trigger] old(ships)@[j]).wf(),
        0 <= dt <= LIMIT,
    ensures
        final(ships)@.len() == old(ships)@.len(),
        forall|j: int|
            0 <= j < old(ships)@.len() ==> (#[trigger] final(ships)@[j]) == old(ships)@[j].aged(
                dt as int,
            ),
        expired@ == expired_upto(old(ships)@, dt as int, old(ships)@.len() as int),
        final(score).0 == accumulated(
            old(score).0 as int,
            reward_upto(old(ships)@, dt as int, old(ships)@.len() as int),
        ),
        forall|j: int| 0 <= j < final(ships)@.len() ==> (#[trigger] final(ships)@[j]).wf(),
{
    let ghost before = ships@;
    let ghost start = score.0 as int;
    let mut expired: Vec<usize> = Vec::new();
    let mut i: usize = 0;
    while i < ships.len()
        invariant
            0 <= dt <= LIMIT,
            i <= ships@.len(),
            before == old(ships)@,
            start == old(score).0,
            ships@.len() == before.len(),
            forall|j: int| 0 <= j < before.len() ==> (#[trigger] before[j]).wf(),
            forall|j: int| 0 <= j < i ==> (#[trigger] ships@[j]) == before[j].aged(dt as int),
            forall|j: int| i <= j < before.len() ==> (#[trigger] ships@[j]) == before[j],
            forall|j: int| 0 <= j < ships@.len() ==> (#[trigger] ships@[j]).wf(),
            expired@ == expired_upto(before, dt as int, i as int),
            score.0 == accumulated(start, reward_upto(before, dt as int, i as int)),
        decreases ships@.len() - i,
    {
        let mut ship: Ship = ships[i];
        let event = ship.enemy.step(dt);
        ships.set(i, ship);
        proof {
            lemma_reward_upto_nonnegative(before, dt as int, i as int);
            lemma_reward_upto_nonnegative(before, dt as int, i + 1);
        }
        match event {
            LifeEvent::Expired => {
                let reward: i64 = calc_strength(&ship.momentum, &ship.enemy);
                score.award(reward);
                expired.push(i);
            },
            _ => {},
        }
        i = i + 1;
    }
    expired
}

/// Hits change nothing about a ship but the energy of its enemy.
pub proof fn lemma_battered_keeps_identity(ship: Ship, hits: Seq<ShipHit>)
    requires
        ship.wf(),
    ensures
        ship.battered(hits).id == ship.id,
        ship.battered(hits).position == ship.position,
        ship.battered(hits).momentum == ship.momentum,
        ship.battered(hits).enemy == (Enemy {
            energy: ship.battered(hits).enemy.energy,
            ..ship.enemy
        }),
        ship.battered(hits).wf(),
    decreases hits.len(),
{
    if hits.len() > 0 {
        lemma_battered_keeps_identity(ship, hits.drop_last());
    }
}

/// Makes the enemies pay for their hits: for every signal, the enemy that
/// it names loses a fifth of a full charge.
pub fn enemy_hit(ships: &mut Vec<Ship>, hits: &Vec<ShipHit>)
    requires
        forall|j: int| 0 <= j < old(ships)@.len() ==> (#[trigger] old(ships)@[j]).wf(),
    ensures
        final(ships)@.len() == old(ships)@.len(),
        forall|j: int|
            0 <= j < final(ships)@.len() ==> (#[trigger] final(ships)@[j]) == old(
                ships,
            )@[j].battered(hits@),
        forall|j: int| 0 <= j < final(ships)@.len() ==> (#[trigger] final(ships)@[j]).wf(),
{
    let ghost before = ships@;
    let mut h: usize = 0;
    while h < hits.len()
        invariant
            h <= hits@.len(),
            before == old(ships)@,
            forall|j: int| 0 <= j < before.len() ==> (#[trigger] before[j]).wf(),
            ships@.len() == before.len(),
            forall|j: int|
                0 <= j < ships@.len() ==> (#[trigger] ships@[j]) == before[j].battered(
                    hits@.take(h as int),
                ),
            forall|j: int| 0 <= j < ships@.len() ==> (#[trigger] ships@[j]).wf(),
        decreases hits@.len() - h,
    {
        let hit: ShipHit = hits[h];
        let ghost round = ships@;
        let mut i: usize = 0;
        while i < ships.len()
            invariant
                h < hits@.len(),
                hit == hits@[h as int],
                i <= ships@.len(),
                forall|j: int| 0 <= j < before.len() ==> (#[trigger] before[j]).wf(),
                ships@.len() == before.len(),
                round.len() == before.len(),
                forall|j: int|
                    0 <= j < round.len() ==> (#[trigger] round[j]) == before[j].battered(
                        hits@.take(h as int),
                    ),
                forall|j: int|
                    0 <= j < i ==> (#[trigger] ships@[j]) == before[j].battered(
                        hits@.take(h + 1),
                    ),
                forall|j: int| i <= j < ships@.len() ==> (#[trigger] ships@[j]) == round[j],
                forall|j: int| 0 <= j < ships@.len() ==> (#[trigger] ships@[j]).wf(),
            decreases ships@.len() - i,
        {
            proof {
                assert(hits@.take(h + 1).drop_last() =~= hits@.take(h as int));
                lemma_battered_keeps_identity(before[i as int], hits@.take(h as int));
            }
            let mut ship: Ship = ships[i];
            if ship.id == hit.id {
                ship.enemy.hit();
                ships.set(i, ship);
            }
            i = i + 1;
        }
        h = h + 1;
    }
    proof {
        assert(hits@.take(hits@.len() as int) =~= hits@);
    }
}

} // verus!

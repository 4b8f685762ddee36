//! Momentum-based movement: thrust over mass accelerates a body, its
//! velocity is limited per axis by its top speed, and its position advances
//! by its velocity once per tick.

use crate::enemy::{Colour, Enemy, EnemyState};
use crate::fixed::{abs_spec, clamp, clamp_spec, clamp_wide, mul_div, scale, scale_spec};
use crate::fixed::{floor_sqrt, isqrt, lemma_div_monotone, lemma_square_monotone};
use crate::fixed::{FAR, LIMIT, SCALE};
use vstd::prelude::*;

verus! {

/// A point or a displacement in the plane.
#[derive(Clone, Copy, Debug, PartialEq, Eq, Structural)]
pub struct Vec2 {
    pub x: i64,
    pub y: i64,
}

/// Position and linear velocity of a moving object.
#[derive(Clone, Copy, Debug, PartialEq, Eq, Structural)]
pub struct Body {
    pub position: Vec2,
    pub velocity: Vec2,
}

/// What limits and drives a moving object.
#[derive(Clone, Copy, Debug, PartialEq, Eq, Structural)]
pub struct Momentum {
    pub max_speed: i64,
    pub mass: i64,
    pub thrust: i64,
}

/// Marks an object whose position is kept inside the play field.
#[derive(Clone, Copy, Debug, PartialEq, Eq, Structural)]
pub struct BoundedMovement;

/// Marks an object that is steered from the keyboard.
#[derive(Clone, Copy, Debug, PartialEq, Eq, Structural)]
pub struct KeyboardMovement;

/// Which of the four steering directions are held down, whichever key of a
/// direction (letter or arrow) holds it.
#[derive(Clone, Copy, Debug, PartialEq, Eq, Structural)]
pub struct MoveKeys {
    pub up: bool,
    pub down: bool,
    pub left: bool,
    pub right: bool,
}

/// The play field, centred on the origin.
#[derive(Clone, Copy, Debug, PartialEq, Eq, Structural)]
pub struct Field {
    pub half_width: i64,
    pub half_height: i64,
}

/// Both coordinates lie within the representable world.
pub open spec fn in_world(p: Vec2) -> bool {
    &&& -FAR <= p.x <= FAR
    &&& -FAR <= p.y <= FAR
}

/// Acceleration of a body under its own full thrust.
pub open spec fn push_accel(m: Momentum) -> int {
    (m.thrust * SCALE) / (m.mass as int)
}

/// Acceleration along one axis from the two keys of that axis: each held key
/// adds the full push in its direction, so both together cancel.
pub open spec fn key_accel(forward: bool, backward: bool, push: int) -> int {
    (if forward {
        push
    } else {
        0
    }) - (if backward {
        push
    } else {
        0
    })
}

/// Velocity along one axis after accelerating for `dt` milliseconds, limited
/// to the top speed in either direction.
pub open spec fn integrate(v: int, accel: int, dt: int, max_speed: int) -> int {
    clamp_spec(v + scale_spec(accel, dt, SCALE as int), -max_speed, max_speed)
}

/// A coordinate after moving by `v`, saturating at the edge of the world.
pub open spec fn advance(p: int, v: int) -> int {
    clamp_spec(p + v, -(FAR as int), FAR as int)
}

/// The body after one tick of keyboard steering.
pub open spec fn player_step(keys: MoveKeys, m: Momentum, body: Body, dt: int) -> Body {
    let vx = integrate(
        body.velocity.x as int,
        key_accel(keys.right, keys.left, push_accel(m)),
        dt,
        m.max_speed as int,
    );
    let vy = integrate(
        body.velocity.y as int,
        key_accel(keys.up, keys.down, push_accel(m)),
        dt,
        m.max_speed as int,
    );
    Body {
        position: Vec2 {
            x: advance(body.position.x as int, vx) as i64,
            y: advance(body.position.y as int, vy) as i64,
        },
        velocity: Vec2 { x: vx as i64, y: vy as i64 },
    }
}

/// The scaled sum of the absolute velocity components that stands for the
/// force of an impact: eight hundredths of `|x| + |y|`.
pub open spec fn magnitude_spec(v: Vec2) -> int {
    ((abs_spec(v.x as int) + abs_spec(v.y as int)) * 8) / 100
}

impl Momentum {
    /// Speeds and thrust are non-negative, mass is positive, all within the
    /// limit for configured quantities.
    pub open spec fn wf(self) -> bool {
        &&& 0 <= self.max_speed <= LIMIT
        &&& 0 < self.mass <= LIMIT
        &&& 0 <= self.thrust <= LIMIT
    }

    /// Bundles the three quantities as given.
    pub fn new(max_speed: i64, mass: i64, thrust: i64) -> (m: Self)
        ensures
            m == (Momentum { max_speed, mass, thrust }),
    {
        Self { max_speed, mass, thrust }
    }

    /// Tells whether the momentum is well formed.
    pub fn is_valid(&self) -> (ok: bool)
        ensures
            ok == self.wf(),
    {
        0 <= self.max_speed && self.max_speed <= LIMIT && 0 < self.mass && self.mass <= LIMIT && 0
            <= self.thrust && self.thrust <= LIMIT
    }
}

impl Vec2 {
    /// Tells whether the point lies within the representable world.
    pub fn is_in_world(&self) -> (ok: bool)
        ensures
            ok == in_world(*self),
    {
        -FAR <= self.x && self.x <= FAR && -FAR <= self.y && self.y <= FAR
    }
}

/// The push of a well-formed momentum is bounded.
pub proof fn lemma_push_bounded(m: Momentum)
    requires
        m.wf(),
    ensures
        0 <= push_accel(m) <= LIMIT * SCALE,
{
    lemma_div_monotone(m.thrust * SCALE, m.thrust * SCALE, 1, m.mass as int);
}

/// Acceleration of a body under its own full thrust.
pub fn thrust_over_mass(m: &Momentum) -> (a: i64)
    requires
        m.wf(),
    ensures
        a == push_accel(*m),
        0 <= a <= LIMIT * SCALE,
{
    proof {
        lemma_push_bounded(*m);
    }
    mul_div(m.thrust, SCALE, m.mass)
}

/// Velocity along one axis after accelerating for `dt` milliseconds.
pub fn integrate_axis(v: i64, accel: i64, dt: i64, max_speed: i64) -> (r: i64)
    requires
        0 <= max_speed,
        0 <= dt <= LIMIT,
        -(LIMIT * SCALE) <= accel <= LIMIT * SCALE,
    ensures
        r == integrate(v as int, accel as int, dt as int, max_speed as int),
        -max_speed <= r <= max_speed,
{
    proof {
        let a = abs_spec(accel as int);
        assert(a * dt <= (LIMIT * SCALE) * LIMIT) by (nonlinear_arith)
            requires
                0 <= a <= LIMIT * SCALE,
                0 <= dt <= LIMIT,
        ;
    }
    let dv: i64 = scale(accel, dt, SCALE);
    clamp_wide(v as i128 + dv as i128, -max_speed, max_speed)
}

/// A coordinate after moving by `v`, saturating at the edge of the world.
pub fn advance_axis(p: i64, v: i64) -> (r: i64)
    ensures
        r == advance(p as int, v as int),
        -FAR <= r <= FAR,
{
    clamp_wide(p as i128 + v as i128, -FAR, FAR)
}

/// Steers one body from the keyboard for one tick: each held direction adds
/// thrust over mass to the acceleration of its axis, the velocity integrates
/// it over `dt` milliseconds and is limited per axis to the top speed, and
/// the position advances by the new velocity.
pub fn player_movement(keys: &MoveKeys, momentum: &Momentum, body: &mut Body, dt: i64)
    requires
        momentum.wf(),
        0 <= dt <= LIMIT,
    ensures
        *final(body) == player_step(*keys, *momentum, *old(body), dt as int),
        abs_spec(final(body).velocity.x as int) <= momentum.max_speed,
        abs_spec(final(body).velocity.y as int) <= momentum.max_speed,
        in_world(final(body).position),
{
    let push: i64 = thrust_over_mass(momentum);
    let mut ax: i64 = 0;
    let mut ay: i64 = 0;
    if keys.up {
        ay = ay + push;
    }
    if keys.down {
        ay = ay - push;
    }
    if keys.left {
        ax = ax - push;
    }
    if keys.right {
        ax = ax + push;
    }
    let vx: i64 = integrate_axis(body.velocity.x, ax, dt, momentum.max_speed);
    let vy: i64 = integrate_axis(body.velocity.y, ay, dt, momentum.max_speed);
    body.velocity = Vec2 { x: vx, y: vy };
    body.position = Vec2 {
        x: advance_axis(body.position.x, vx),
        y: advance_axis(body.position.y, vy),
    };
}

/// Keeps a position inside the play field by limiting each coordinate to
/// the half extent of the field on either side of the origin.
pub fn bounded_movement(position: &mut Vec2, field: &Field)
    requires
        0 <= field.half_width,
        0 <= field.half_height,
    ensures
        final(position).x == clamp_spec(
            old(position).x as int,
            -field.half_width,
            field.half_width as int,
        ),
        final(position).y == clamp_spec(
            old(position).y as int,
            -field.half_height,
            field.half_height as int,
        ),
{
    position.x = clamp(position.x, -field.half_width, field.half_width);
    position.y = clamp(position.y, -field.half_height, field.half_height);
}

/// Turns a velocity into the single number that scales the camera shake of
/// an impact.
pub fn get_magnitude(velocity: &Vec2) -> (m: i64)
    ensures
        m == magnitude_spec(*velocity),
        m >= 0,
{
    let ax: i128 = if velocity.x < 0 {
        -(velocity.x as i128)
    } else {
        velocity.x as i128
    };
    let ay: i128 = if velocity.y < 0 {
        -(velocity.y as i128)
    } else {
        velocity.y as i128
    };
    let m: i128 = (ax + ay) * 8 / 100;
    m as i64
}

/// However a body moved before, after one integration step neither velocity
/// component exceeds the top speed in magnitude.
pub proof fn law_speed_never_exceeds_max(v: int, accel: int, dt: int, max_speed: int)
    requires
        0 <= max_speed,
    ensures
        abs_spec(integrate(v, accel, dt, max_speed)) <= max_speed,
{
}

/// After one integration step the squared length of the velocity is at most
/// twice the squared top speed.
pub proof fn law_speed_length_bounded(
    vx: int,
    vy: int,
    ax: int,
    ay: int,
    dt: int,
    max_speed: int,
)
    requires
        0 <= max_speed,
    ensures
        ({
            let nx = integrate(vx, ax, dt, max_speed);
            let ny = integrate(vy, ay, dt, max_speed);
            nx * nx + ny * ny <= 2 * (max_speed * max_speed)
        }),
{
    let nx = integrate(vx, ax, dt, max_speed);
    let ny = integrate(vy, ay, dt, max_speed);
    assert(nx * nx <= max_speed * max_speed) by (nonlinear_arith)
        requires
            -max_speed <= nx <= max_speed,
    ;
    assert(ny * ny <= max_speed * max_speed) by (nonlinear_arith)
        requires
            -max_speed <= ny <= max_speed,
    ;
}

/// What the chase did for one enemy.
#[derive(Clone, Copy, Debug, PartialEq, Eq, Structural)]
pub struct Chase {
    /// The colour in which the enemy is drawn.
    pub fill: Colour,
    /// Which of the targets the enemy went after, if it went after any.
    pub target: Option<usize>,
    /// Whether the chase goes on for the enemies that come next. It ends
    /// for this tick when a moving enemy finds nobody to chase.
    pub go_on: bool,
}

/// The colour of an enemy that is switched off.
pub open spec fn resting_colour() -> Colour {
    Colour { r: 392, g: 392, b: 392 }
}

/// Squared distance between two points.
pub open spec fn distance_sq(a: Vec2, b: Vec2) -> int {
    (b.x - a.x) * (b.x - a.x) + (b.y - a.y) * (b.y - a.y)
}

/// The `i`-th target is the nearest to `from`; of several at the same
/// distance it is the first.
pub open spec fn is_closest(from: Vec2, targets: Seq<Vec2>, i: int) -> bool {
    &&& 0 <= i < targets.len()
    &&& forall|j: int|
        0 <= j < targets.len() ==> distance_sq(from, targets[i]) <= #[trigger] distance_sq(
            from,
            targets[j],
        )
    &&& forall|j: int|
        0 <= j < i ==> distance_sq(from, targets[i]) < #[trigger] distance_sq(from, targets[j])
}

/// One component, in thousandths, of the direction of length one along a
/// displacement of the given length. A displacement of length zero has no
/// direction.
pub open spec fn unit_toward(d: int, len: int) -> int {
    if len == 0 {
        0
    } else {
        scale_spec(d, SCALE as int, len)
    }
}

/// Acceleration along one axis of a body that pushes with full thrust in
/// the direction of a displacement.
pub open spec fn chase_accel(m: Momentum, d: int, len: int) -> int {
    scale_spec(unit_toward(d, len), m.thrust as int, m.mass as int)
}

/// The body after one tick of chasing the target.
pub open spec fn chase_step(m: Momentum, body: Body, target: Vec2, dt: int) -> Body {
    let dx = target.x - body.position.x;
    let dy = target.y - body.position.y;
    let len = floor_sqrt(dx * dx + dy * dy);
    let vx = integrate(body.velocity.x as int, chase_accel(m, dx, len), dt, m.max_speed as int);
    let vy = integrate(body.velocity.y as int, chase_accel(m, dy, len), dt, m.max_speed as int);
    Body {
        position: Vec2 {
            x: advance(body.position.x as int, vx) as i64,
            y: advance(body.position.y as int, vy) as i64,
        },
        velocity: Vec2 { x: vx as i64, y: vy as i64 },
    }
}

/// Squares of coordinate differences within the world fit the wide number
/// type.
pub proof fn lemma_distance_fits(a: Vec2, b: Vec2)
    requires
        in_world(a),
        in_world(b),
    ensures
        0 <= (b.x - a.x) * (b.x - a.x) <= 4 * (FAR * FAR),
        0 <= (b.y - a.y) * (b.y - a.y) <= 4 * (FAR * FAR),
        0 <= distance_sq(a, b) <= 8 * (FAR * FAR),
        8 * (FAR * FAR) < i128::MAX,
{
    let dx = b.x - a.x;
    let dy = b.y - a.y;
    assert(0 <= dx * dx <= 4 * (FAR * FAR)) by (nonlinear_arith)
        requires
            -2 * FAR <= dx <= 2 * FAR,
    ;
    assert(0 <= dy * dy <= 4 * (FAR * FAR)) by (nonlinear_arith)
        requires
            -2 * FAR <= dy <= 2 * FAR,
    ;
}

/// Squared distance between two points of the world.
pub fn squared_distance(a: &Vec2, b: &Vec2) -> (d: i128)
    requires
        in_world(*a),
        in_world(*b),
    ensures
        d == distance_sq(*a, *b),
        0 <= d,
{
    proof {
        lemma_distance_fits(*a, *b);
    }
    let dx: i128 = b.x as i128 - a.x as i128;
    let dy: i128 = b.y as i128 - a.y as i128;
    dx * dx + dy * dy
}

/// Finds the target nearest to `from`: the first of the nearest, and none
/// where there is no target.
pub fn closest_target(from: &Vec2, targets: &Vec<Vec2>) -> (found: Option<usize>)
    requires
        in_world(*from),
        forall|j: int| 0 <= j < targets@.len() ==> in_world(#[trigger] targets@[j]),
    ensures
        found is None <==> targets@.len() == 0,
        found matches Some(i) ==> is_closest(*from, targets@, i as int),
{
    if targets.len() == 0 {
        return None;
    }
    let mut best: usize = 0;
    let mut best_distance: i128 = squared_distance(from, &targets[0]);
    let mut i: usize = 1;
    while i < targets.len()
        invariant
            in_world(*from),
            forall|j: int| 0 <= j < targets@.len() ==> in_world(#[trigger] targets@[j]),
            1 <= i <= targets@.len(),
            best < i,
            best_distance == distance_sq(*from, targets@[best as int]),
            forall|j: int|
                0 <= j < i ==> best_distance <= #[trigger] distance_sq(*from, targets@[j]),
            forall|j: int|
                0 <= j < best ==> best_distance < #[trigger] distance_sq(*from, targets@[j]),
        decreases targets@.len() - i,
    {
        let d: i128 = squared_distance(from, &targets[i]);
        if d < best_distance {
            best = i;
            best_distance = d;
        }
        i = i + 1;
    }
    Some(best)
}

/// The length of a displacement bounds each of its components.
pub proof fn lemma_component_within_length(dx: int, dy: int, len: int)
    requires
        0 <= len,
        dx * dx + dy * dy < (len + 1) * (len + 1),
    ensures
        abs_spec(dx) <= len,
{
    let a = abs_spec(dx);
    assert(a * a == dx * dx) by (nonlinear_arith)
        requires
            a == dx || a == -dx,
    ;
    assert(dy * dy >= 0) by (nonlinear_arith);
    if a >= len + 1 {
        lemma_square_monotone(len + 1, a);
    }
}

/// A component of a direction of length one is at most one.
pub proof fn lemma_unit_bounded(d: int, len: int)
    requires
        0 < len,
        abs_spec(d) <= len,
    ensures
        0 <= (abs_spec(d) * SCALE) / len <= SCALE,
{
    let a = abs_spec(d);
    lemma_div_monotone(a * SCALE, len * SCALE, len, len);
    assert((len * SCALE) / len == SCALE) by (nonlinear_arith)
        requires
            0 < len,
    ;
}

/// The push along one axis toward a target is bounded.
pub proof fn lemma_chase_bounded(unit: int, m: Momentum)
    requires
        m.wf(),
        abs_spec(unit) <= SCALE,
    ensures
        0 <= (abs_spec(unit) * m.thrust) / (m.mass as int) <= LIMIT * SCALE,
{
    let a = abs_spec(unit);
    let t = m.thrust as int;
    assert(0 <= a * t <= SCALE * LIMIT) by (nonlinear_arith)
        requires
            0 <= a <= SCALE,
            0 <= t <= LIMIT,
    ;
    lemma_div_monotone(a * t, a * t, 1, m.mass as int);
}

/// Acceleration along one axis of a body that pushes with full thrust in
/// the direction of a displacement of the given length.
fn toward(d: i64, len: i64, m: &Momentum) -> (a: i64)
    requires
        m.wf(),
        0 <= len,
        abs_spec(d as int) <= len,
    ensures
        a == chase_accel(*m, d as int, len as int),
        -(LIMIT * SCALE) <= a <= LIMIT * SCALE,
{
    let unit: i64 = if len == 0 {
        0
    } else {
        proof {
            lemma_unit_bounded(d as int, len as int);
        }
        scale(d, SCALE, len)
    };
    proof {
        lemma_chase_bounded(unit as int, *m);
    }
    scale(unit, m.thrust, m.mass)
}

/// Lets one body chase a target for one tick: it pushes with full thrust in
/// the direction of the target, its velocity integrates the push and is
/// limited per axis to the top speed, and its position advances by the new
/// velocity.
pub fn chase_target(momentum: &Momentum, body: &mut Body, target: &Vec2, dt: i64)
    requires
        momentum.wf(),
        0 <= dt <= LIMIT,
        in_world(old(body).position),
        in_world(*target),
    ensures
        *final(body) == chase_step(*momentum, *old(body), *target, dt as int),
        abs_spec(final(body).velocity.x as int) <= momentum.max_speed,
        abs_spec(final(body).velocity.y as int) <= momentum.max_speed,
        in_world(final(body).position),
{
    let squared: i128 = squared_distance(&body.position, target);
    let root: u128 = isqrt(squared as u128);
    let dx: i64 = target.x - body.position.x;
    let dy: i64 = target.y - body.position.y;
    proof {
        lemma_distance_fits(body.position, *target);
        lemma_component_within_length(dx as int, dy as int, root as int);
        lemma_component_within_length(dy as int, dx as int, root as int);
        if root > i64::MAX {
            lemma_square_monotone(i64::MAX as int, root as int);
        }
    }
    let len: i64 = root as i64;
    let ax: i64 = toward(dx, len, momentum);
    let ay: i64 = toward(dy, len, momentum);
    let vx: i64 = integrate_axis(body.velocity.x, ax, dt, momentum.max_speed);
    let vy: i64 = integrate_axis(body.velocity.y, ay, dt, momentum.max_speed);
    body.velocity = Vec2 { x: vx, y: vy };
    body.position = Vec2 {
        x: advance_axis(body.position.x, vx),
        y: advance_axis(body.position.y, vy),
    };
}

/// Moves one enemy for one tick.
///
/// A moving enemy is drawn in its own colour and chases the nearest target.
/// With nobody to chase it stays as it is, and the chase ends for this
/// tick. A stopped enemy is drawn in grey and neither accelerates nor moves.
pub fn chase_movement(
    enemy: &Enemy,
    momentum: &Momentum,
    body: &mut Body,
    targets: &Vec<Vec2>,
    dt: i64,
) -> (chase: Chase)
    requires
        momentum.wf(),
        0 <= dt <= LIMIT,
        in_world(old(body).position),
        forall|j: int| 0 <= j < targets@.len() ==> in_world(#[trigger] targets@[j]),
    ensures
        enemy.state == EnemyState::Stopped ==> {
            &&& chase == (Chase { fill: resting_colour(), target: None, go_on: true })
            &&& *final(body) == *old(body)
        },
        enemy.state == EnemyState::Moving && targets@.len() == 0 ==> {
            &&& chase == (Chase { fill: enemy.colour, target: None, go_on: false })
            &&& *final(body) == *old(body)
        },
        enemy.state == EnemyState::Moving && targets@.len() > 0 ==> {
            &&& chase.fill == enemy.colour
            &&& chase.go_on
            &&& chase.target matches Some(k)
            &&& is_closest(old(body).position, targets@, k as int)
            &&& *final(body) == chase_step(*momentum, *old(body), targets@[k as int], dt as int)
            &&& abs_spec(final(body).velocity.x as int) <= momentum.max_speed
            &&& abs_spec(final(body).velocity.y as int) <= momentum.max_speed
        },
        in_world(final(body).position),
{
    match enemy.state {
        EnemyState::Moving => {
            let found = closest_target(&body.position, targets);
            match found {
                None => Chase { fill: enemy.colour, target: None, go_on: false },
                Some(k) => {
                    chase_target(momentum, body, &targets[k], dt);
                    Chase { fill: enemy.colour, target: Some(k), go_on: true }
                },
            }
        },
        EnemyState::Stopped => Chase {
            fill: Colour { r: 392, g: 392, b: 392 },
            target: None,
            go_on: true,
        },
    }
}

/// Whatever the keys, the target and the velocity before, after a tick of
/// steering or of chasing neither velocity component of the body exceeds
/// its top speed in magnitude.
pub proof fn law_steps_keep_within_top_speed(
    keys: MoveKeys,
    m: Momentum,
    body: Body,
    target: Vec2,
    dt: int,
)
    requires
        0 <= m.max_speed,
    ensures
        abs_spec(player_step(keys, m, body, dt).velocity.x as int) <= m.max_speed,
        abs_spec(player_step(keys, m, body, dt).velocity.y as int) <= m.max_speed,
        abs_spec(chase_step(m, body, target, dt).velocity.x as int) <= m.max_speed,
        abs_spec(chase_step(m, body, target, dt).velocity.y as int) <= m.max_speed,
{
}

} // verus!

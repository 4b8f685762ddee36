//! The level: a player in the middle of the field.

use crate::difficulty::Polygon;
use crate::fixed::scale_spec;
use crate::movement::{Body, Momentum, Vec2};
use vstd::prelude::*;

verus! {

/// Asks for the level to be set up.
#[derive(Clone, Copy, Debug, PartialEq, Eq, Structural)]
pub struct SpawnLevel;

/// Asks for a player with the given momentum.
#[derive(Clone, Copy, Debug, PartialEq, Eq, Structural)]
pub struct SpawnPlayer {
    pub max_speed: i64,
    pub mass: i64,
    pub thrust: i64,
}

/// Everything that is decided about a new player.
#[derive(Clone, Copy, Debug, PartialEq, Eq, Structural)]
pub struct PlayerSpawn {
    pub momentum: Momentum,
    pub body: Body,
    pub radius: i64,
}

/// Radius of the player's disc.
pub const PLAYER_RADIUS: i64 = 7_500;

/// The point with the given coordinates.
pub open spec fn point(x: int, y: int) -> Vec2 {
    Vec2 { x: x as i64, y: y as i64 }
}

/// The eight corners of the player's outline, a bird seen from above: beak,
/// left wing, tail and right wing.
pub open spec fn player_points() -> Seq<Vec2> {
    seq![
        point(0, 15_000),
        point(-5_000, 5_000),
        point(-15_000, -5_000),
        point(-5_000, -2_500),
        point(0, -10_000),
        point(5_000, -2_500),
        point(15_000, -5_000),
        point(5_000, 5_000),
    ]
}

impl SpawnLevel {
    /// The level holds one player: top speed 8, mass 1.3, thrust 15.
    pub fn apply(self) -> (player: SpawnPlayer)
        ensures
            player == (SpawnPlayer { max_speed: 8_000, mass: 1_300, thrust: 15_000 }),
    {
        SpawnPlayer { max_speed: 8_000, mass: 1_300, thrust: 15_000 }
    }
}

/// Sets up the player in the middle of the field, drifting upward at a
/// tenth of its top speed.
pub fn spawn_player(request: SpawnPlayer) -> (player: PlayerSpawn)
    ensures
        player == (PlayerSpawn {
            momentum: Momentum {
                max_speed: request.max_speed,
                mass: request.mass,
                thrust: request.thrust,
            },
            body: Body {
                position: Vec2 { x: 0, y: 0 },
                velocity: Vec2 { x: 0, y: scale_spec(request.max_speed as int, 1, 10) as i64 },
            },
            radius: PLAYER_RADIUS,
        }),
{
    let wide: i128 = request.max_speed as i128;
    let drift: i128 = if wide < 0 {
        -((-wide) / 10)
    } else {
        wide / 10
    };
    PlayerSpawn {
        momentum: Momentum::new(request.max_speed, request.mass, request.thrust),
        body: Body {
            position: Vec2 { x: 0, y: 0 },
            velocity: Vec2 { x: 0, y: drift as i64 },
        },
        radius: PLAYER_RADIUS,
    }
}

/// The outline of the player.
pub fn player_shape() -> (p: Polygon)
    ensures
        p.points@ == player_points(),
        p.closed,
{
    let mut points: Vec<Vec2> = Vec::new();
    points.push(Vec2 { x: 0, y: 15_000 });
    points.push(Vec2 { x: -5_000, y: 5_000 });
    points.push(Vec2 { x: -15_000, y: -5_000 });
    points.push(Vec2 { x: -5_000, y: -2_500 });
    points.push(Vec2 { x: 0, y: -10_000 });
    points.push(Vec2 { x: 5_000, y: -2_500 });
    points.push(Vec2 { x: 15_000, y: -5_000 });
    points.push(Vec2 { x: 5_000, y: 5_000 });
    Polygon { points, closed: true }
}

} // verus!

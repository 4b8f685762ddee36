//! What a collision leads to: hits on enemies, the end of the game, and the
//! shake of the camera.

use crate::enemy::{EnemyState, Ship};
use crate::events::ShipHit;
use crate::movement::{get_magnitude, magnitude_spec, Vec2};
use crate::random::uniform_inclusive;
use vstd::prelude::*;

verus! {

/// Two bodies, named by their identities, began or ceased to touch.
#[derive(Clone, Copy, Debug, PartialEq, Eq, Structural)]
pub enum Contact {
    Started(u64, u64),
    Stopped(u64, u64),
}

/// One thing that follows from a collision.
#[derive(Clone, Copy, Debug, PartialEq, Eq, Structural)]
pub enum Reaction {
    /// An enemy was hit.
    Hit(ShipHit),
    /// A moving enemy caught the player: the game is over.
    EndGame,
    /// The player ran into something else: the camera shakes by this much.
    Shake(i64),
}

/// Least pitch of the sound of an impact, in thousandths.
pub const PITCH_MIN: i64 = 500;

/// The pitch of the sound of an impact stays below this, in thousandths.
pub const PITCH_END: i64 = 1500;

/// What a contact means for one enemy.
///
/// Where the first body is the enemy, it is hit, and the game ends if the
/// second is the player and the enemy moves. Where the second body is the
/// enemy and it moves, it is hit, and the game ends if the first is the
/// player. Where a contact of the player is neither, the camera shakes.
/// Bodies that cease to touch lead to nothing.
pub open spec fn react_to(contact: Contact, player: u64, shake: int, ship: Ship) -> Seq<Reaction> {
    match contact {
        Contact::Started(first, second) => {
            if first == ship.id {
                if second == player && ship.enemy.state == EnemyState::Moving {
                    seq![Reaction::Hit(ShipHit { id: first }), Reaction::EndGame]
                } else {
                    seq![Reaction::Hit(ShipHit { id: first })]
                }
            } else if second == ship.id && ship.enemy.state == EnemyState::Moving {
                if first == player {
                    seq![Reaction::Hit(ShipHit { id: second }), Reaction::EndGame]
                } else {
                    seq![Reaction::Hit(ShipHit { id: second })]
                }
            } else if first == player || second == player {
                seq![Reaction::Shake(shake as i64)]
            } else {
                Seq::<Reaction>::empty()
            }
        },
        Contact::Stopped(_, _) => Seq::<Reaction>::empty(),
    }
}

/// What a contact means for the first `n` enemies, one after the other.
pub open spec fn reactions_upto(
    contact: Contact,
    player: u64,
    shake: int,
    ships: Seq<Ship>,
    n: int,
) -> Seq<Reaction>
    decreases n,
{
    if n <= 0 {
        Seq::<Reaction>::empty()
    } else {
        reactions_upto(contact, player, shake, ships, n - 1) + react_to(
            contact,
            player,
            shake,
            ships[n - 1],
        )
    }
}

/// Works out what follows from one contact, going through the enemies in
/// the order of the list.
pub fn collision_events(
    contact: &Contact,
    player: u64,
    player_velocity: &Vec2,
    ships: &Vec<Ship>,
) -> (out: Vec<Reaction>)
    ensures
        out@ == reactions_upto(
            *contact,
            player,
            magnitude_spec(*player_velocity),
            ships@,
            ships@.len() as int,
        ),
{
    let mut out: Vec<Reaction> = Vec::new();
    let shake: i64 = get_magnitude(player_velocity);
    let mut i: usize = 0;
    while i < ships.len()
        invariant
            i <= ships@.len(),
            shake == magnitude_spec(*player_velocity),
            out@ == reactions_upto(*contact, player, shake as int, ships@, i as int),
        decreases ships@.len() - i,
    {
        let ship: Ship = ships[i];
        match contact {
            Contact::Started(first, second) => {
                if *first == ship.id {
                    out.push(Reaction::Hit(ShipHit { id: *first }));
                    if *second == player && ship.enemy.state.is_moving() {
                        out.push(Reaction::EndGame);
                    }
                } else if *second == ship.id && ship.enemy.state.is_moving() {
                    out.push(Reaction::Hit(ShipHit { id: *second }));
                    if *first == player {
                        out.push(Reaction::EndGame);
                    }
                } else if *first == player || *second == player {
                    out.push(Reaction::Shake(shake));
                }
            },
            Contact::Stopped(_, _) => {},
        }
        i = i + 1;
    }
    out
}

/// The pitch at which the sound of an impact is played: a random factor
/// from a half up to, but not reaching, one and a half.
pub fn randomise_speed() -> (pitch: i64)
    ensures
        PITCH_MIN <= pitch < PITCH_END,
{
    uniform_inclusive(PITCH_MIN, PITCH_END - 1)
}

/// An enemy that is switched off never ends the game, whatever it touches.
pub proof fn law_stopped_enemy_is_harmless(contact: Contact, player: u64, shake: int, ship: Ship)
    requires
        ship.enemy.state == EnemyState::Stopped,
    ensures
        !react_to(contact, player, shake, ship).contains(Reaction::EndGame),
{
    let r = react_to(contact, player, shake, ship);
    assert forall|k: int| 0 <= k < r.len() implies r[k] != Reaction::EndGame by {}
}

/// A moving enemy that begins to touch the player ends the game, whichever
/// of the two is named first.
pub proof fn law_moving_enemy_ends_game(player: u64, shake: int, ship: Ship)
    requires
        ship.enemy.state == EnemyState::Moving,
        ship.id != player,
    ensures
        react_to(Contact::Started(ship.id, player), player, shake, ship).contains(
            Reaction::EndGame,
        ),
        react_to(Contact::Started(player, ship.id), player, shake, ship).contains(
            Reaction::EndGame,
        ),
{
}

} // verus!

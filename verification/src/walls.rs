//! The four walls round the play field.

use crate::fixed::LIMIT;
use vstd::prelude::*;

verus! {

/// A wall by its extent and the place of its centre.
#[derive(Clone, Copy, Debug, PartialEq, Eq, Structural)]
pub struct Wall {
    pub width: i64,
    pub height: i64,
    pub x: i64,
    pub y: i64,
}

/// The four walls of a field.
#[derive(Clone, Copy, Debug, PartialEq, Eq, Structural)]
pub struct WallLayout {
    pub south: Wall,
    pub north: Wall,
    pub west: Wall,
    pub east: Wall,
}

/// The identities of the walls that stand at the moment.
#[derive(Clone, Copy, Debug, PartialEq, Eq, Structural)]
pub struct WallEntities {
    pub north: Option<u64>,
    pub south: Option<u64>,
    pub west: Option<u64>,
    pub east: Option<u64>,
}

/// Thickness of a wall that is set up at the start.
pub const WALL_THICKNESS: i64 = 10_000;

/// By how much a wall that is set up at the start is longer than its side.
pub const WALL_OVERLAP: i64 = 9_000;

/// Thickness of a wall that is set up after the window changed its size.
pub const THIN_WALL: i64 = 1_000;

/// Four walls along the sides of a window: each is centred on its side, as
/// long as the side and the extra length, and as thick as given.
pub open spec fn layout_spec(width: int, height: int, extra: int, thickness: int) -> WallLayout {
    WallLayout {
        south: Wall {
            width: (width + extra) as i64,
            height: thickness as i64,
            x: 0,
            y: (-(height / 2)) as i64,
        },
        north: Wall {
            width: (width + extra) as i64,
            height: thickness as i64,
            x: 0,
            y: (height / 2) as i64,
        },
        west: Wall {
            width: thickness as i64,
            height: (height + extra) as i64,
            x: (-(width / 2)) as i64,
            y: 0,
        },
        east: Wall {
            width: thickness as i64,
            height: (height + extra) as i64,
            x: (width / 2) as i64,
            y: 0,
        },
    }
}

/// The identities of the walls that stand, in the order north, south, west,
/// east.
pub open spec fn standing(walls: WallEntities) -> Seq<u64> {
    (match walls.north {
        Some(id) => seq![id],
        None => Seq::<u64>::empty(),
    }) + (match walls.south {
        Some(id) => seq![id],
        None => Seq::<u64>::empty(),
    }) + (match walls.west {
        Some(id) => seq![id],
        None => Seq::<u64>::empty(),
    }) + (match walls.east {
        Some(id) => seq![id],
        None => Seq::<u64>::empty(),
    })
}

impl Default for WallEntities {
    /// At first no wall stands.
    fn default() -> (w: Self)
        ensures
            w == (WallEntities { north: None, south: None, west: None, east: None }),
    {
        WallEntities { north: None, south: None, west: None, east: None }
    }
}

/// Four walls along the sides of a window.
fn layout(width: i64, height: i64, extra: i64, thickness: i64) -> (walls: WallLayout)
    requires
        0 <= width <= LIMIT,
        0 <= height <= LIMIT,
        0 <= extra <= LIMIT,
    ensures
        walls == layout_spec(width as int, height as int, extra as int, thickness as int),
{
    WallLayout {
        south: Wall { width: width + extra, height: thickness, x: 0, y: -(height / 2) },
        north: Wall { width: width + extra, height: thickness, x: 0, y: height / 2 },
        west: Wall { width: thickness, height: height + extra, x: -(width / 2), y: 0 },
        east: Wall { width: thickness, height: height + extra, x: width / 2, y: 0 },
    }
}

/// The walls that are set up at the start for a window of the given size.
pub fn setup_walls(width: i64, height: i64) -> (walls: WallLayout)
    requires
        0 <= width <= LIMIT,
        0 <= height <= LIMIT,
    ensures
        walls == layout_spec(
            width as int,
            height as int,
            WALL_OVERLAP as int,
            WALL_THICKNESS as int,
        ),
{
    layout(width, height, WALL_OVERLAP, WALL_THICKNESS)
}

/// The walls that replace the standing ones after the window changed its
/// size; none where it did not.
pub fn update_walls_on_resize(resized: bool, width: i64, height: i64) -> (walls: Option<
    WallLayout,
>)
    requires
        0 <= width <= LIMIT,
        0 <= height <= LIMIT,
    ensures
        walls == (if resized {
            Some(layout_spec(width as int, height as int, 0, THIN_WALL as int))
        } else {
            None
        }),
{
    if resized {
        Some(layout(width, height, 0, THIN_WALL))
    } else {
        None
    }
}

/// Takes down every wall that stands: the record is emptied, and the
/// identities of the walls to remove are handed out.
pub fn despawn_walls(walls: &mut WallEntities) -> (removed: Vec<u64>)
    ensures
        removed@ == standing(*old(walls)),
        *final(walls) == (WallEntities { north: None, south: None, west: None, east: None }),
{
    let mut removed: Vec<u64> = Vec::new();
    match walls.north {
        Some(id) => {
            removed.push(id);
        },
        None => {},
    }
    match walls.south {
        Some(id) => {
            removed.push(id);
        },
        None => {},
    }
    match walls.west {
        Some(id) => {
            removed.push(id);
        },
        None => {},
    }
    match walls.east {
        Some(id) => {
            removed.push(id);
        },
        None => {},
    }
    *walls = WallEntities { north: None, south: None, west: None, east: None };
    removed
}

} // verus!

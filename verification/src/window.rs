//! Keeps the window wide enough for the world and scales the menus with
//! its height.

use crate::fixed::{mul_div, LIMIT, SCALE};
use vstd::prelude::*;

verus! {

/// Height of the world that the window shows.
pub const WINDOW_WORLD_HEIGHT: i64 = 720_000;

/// Width of the world that the window must show at least.
pub const WINDOW_USABLE_WORLD_WIDTH: i64 = 1_280_000;

/// The window has a new size.
#[derive(Clone, Copy, Debug, PartialEq, Eq, Structural)]
pub struct WindowResized {
    pub width: i64,
    pub height: i64,
}

/// What follows from a new size of the window.
#[derive(Clone, Copy, Debug, PartialEq, Eq, Structural)]
pub struct Resolution {
    /// The width to which a window that is too narrow is widened.
    pub widen_to: Option<i64>,
    /// The factor by which the menus are scaled, in thousandths.
    pub ui_scale: i64,
}

/// The window is narrower, for its height, than the world is.
pub open spec fn too_narrow(e: WindowResized) -> bool {
    e.width * WINDOW_WORLD_HEIGHT < WINDOW_USABLE_WORLD_WIDTH * e.height
}

/// What follows from a new size: a window too narrow for its height gets
/// the least width that shows the world, and the menus are scaled by the
/// height of the window over the height of the world.
pub open spec fn resolution_spec(e: WindowResized) -> Resolution {
    Resolution {
        widen_to: if too_narrow(e) {
            Some(((WINDOW_USABLE_WORLD_WIDTH * e.height) / (WINDOW_WORLD_HEIGHT as int)) as i64)
        } else {
            None
        },
        ui_scale: ((e.height * SCALE) / (WINDOW_WORLD_HEIGHT as int)) as i64,
    }
}

/// Reacts to the changes of the window's size in one frame: only the last
/// of them counts, and without any nothing follows. A window without
/// height is never too narrow, and scales the menus to nothing.
pub fn guard_resolution(resizes: &Vec<WindowResized>) -> (r: Option<Resolution>)
    requires
        forall|i: int|
            0 <= i < resizes@.len() ==> 0 <= (#[trigger] resizes@[i]).width <= LIMIT && 0
                <= resizes@[i].height <= LIMIT,
    ensures
        r == (if resizes@.len() == 0 {
            None
        } else {
            Some(resolution_spec(resizes@.last()))
        }),
{
    let n: usize = resizes.len();
    if n == 0 {
        return None;
    }
    let e: WindowResized = resizes[n - 1];
    let narrow: bool = (e.width as i128) * (WINDOW_WORLD_HEIGHT as i128) < (
    WINDOW_USABLE_WORLD_WIDTH as i128) * (e.height as i128);
    let widen_to: Option<i64> = if narrow {
        Some(mul_div(WINDOW_USABLE_WORLD_WIDTH, e.height, WINDOW_WORLD_HEIGHT))
    } else {
        None
    };
    let ui_scale: i64 = mul_div(e.height, SCALE, WINDOW_WORLD_HEIGHT);
    Some(Resolution { widen_to, ui_scale })
}

} // verus!

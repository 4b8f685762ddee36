//! Buttons that fire when the pointer lets go of them, or when their key
//! is pressed, and that change colour under the pointer.

use crate::enemy::Colour;
use crate::widgets::Key;
use vstd::prelude::*;

verus! {

/// What the pointer does to a button.
#[derive(Clone, Copy, Debug, PartialEq, Eq, Structural)]
pub enum Interaction {
    /// The pointer holds the button down.
    Pressed,
    /// The pointer rests on the button.
    Hovered,
    /// The pointer is elsewhere.
    Away,
}

/// A button that fires in the frame in which the pointer lets go of it.
#[derive(Clone, Copy, Debug, PartialEq, Eq, Structural)]
pub struct ReleaseButton {
    pub just_released: bool,
    pub previous_interaction: Interaction,
}

/// The key that fires a button without the pointer.
#[derive(Clone, Copy, Debug, PartialEq, Eq, Structural)]
pub struct ReleaseButtonForceKey {
    pub key_code: Key,
}

/// The colours of a button for the three things a pointer can do to it.
#[derive(Clone, Copy, Debug, PartialEq, Eq, Structural)]
pub struct ColorButton {
    pub normal_color: Colour,
    pub hovered_color: Colour,
    pub pressed_color: Colour,
}

/// The button one frame later, given what the pointer does now. A button
/// that has just fired is quiet for a frame; otherwise it fires when the
/// pointer, having held it down, now rests on it.
pub open spec fn after_pointer(button: ReleaseButton, interaction: Interaction) -> ReleaseButton {
    ReleaseButton {
        just_released: !button.just_released && interaction == Interaction::Hovered
            && button.previous_interaction == Interaction::Pressed,
        previous_interaction: interaction,
    }
}

/// The colour of a button under the pointer.
pub open spec fn shown_colour(button: ColorButton, interaction: Interaction) -> Colour {
    match interaction {
        Interaction::Pressed => button.pressed_color,
        Interaction::Hovered => button.hovered_color,
        Interaction::Away => button.normal_color,
    }
}

impl Default for ReleaseButton {
    /// A new button has not fired and has not been touched.
    fn default() -> (b: Self)
        ensures
            b == (ReleaseButton {
                just_released: false,
                previous_interaction: Interaction::Away,
            }),
    {
        ReleaseButton { just_released: false, previous_interaction: Interaction::Away }
    }
}

impl Default for ColorButton {
    /// White, and two shades of grey under the pointer.
    fn default() -> (b: Self)
        ensures
            b == (ColorButton {
                normal_color: Colour { r: 1000, g: 1000, b: 1000 },
                hovered_color: Colour { r: 800, g: 800, b: 800 },
                pressed_color: Colour { r: 600, g: 600, b: 600 },
            }),
    {
        ColorButton {
            normal_color: Colour { r: 1000, g: 1000, b: 1000 },
            hovered_color: Colour { r: 800, g: 800, b: 800 },
            pressed_color: Colour { r: 600, g: 600, b: 600 },
        }
    }
}

impl ReleaseButtonForceKey {
    /// Binds a key to a button.
    pub fn new(key_code: Key) -> (k: Self)
        ensures
            k.key_code == key_code,
    {
        Self { key_code }
    }
}

/// Brings a button up to date with what the pointer does in this frame.
pub fn update_release_buttons(interaction: Interaction, button: &mut ReleaseButton)
    ensures
        *final(button) == after_pointer(*old(button), interaction),
{
    if button.just_released {
        button.just_released = false;
    } else {
        let hovered: bool = match interaction {
            Interaction::Hovered => true,
            _ => false,
        };
        let was_pressed: bool = match button.previous_interaction {
            Interaction::Pressed => true,
            _ => false,
        };
        if hovered && was_pressed {
            button.just_released = true;
        }
    }
    button.previous_interaction = interaction;
}

/// Fires a button whose key has just been pressed.
pub fn update_release_buttons_with_force_key(button: &mut ReleaseButton, key_just_pressed: bool)
    ensures
        final(button).just_released == (old(button).just_released || key_just_pressed),
        final(button).previous_interaction == old(button).previous_interaction,
{
    if key_just_pressed {
        button.just_released = true;
    }
}

/// The colour in which a button is drawn under the pointer.
pub fn update_color_buttons(button: &ColorButton, interaction: Interaction) -> (colour: Colour)
    ensures
        colour == shown_colour(*button, interaction),
{
    match interaction {
        Interaction::Pressed => button.pressed_color,
        Interaction::Hovered => button.hovered_color,
        Interaction::Away => button.normal_color,
    }
}

/// A button fires only in a frame in which the pointer rests on it after
/// holding it down, and never in two frames running.
pub proof fn law_release_fires_once(button: ReleaseButton, first: Interaction, second: Interaction)
    ensures
        after_pointer(button, first).just_released ==> first == Interaction::Hovered
            && button.previous_interaction == Interaction::Pressed,
        after_pointer(button, first).just_released ==> !after_pointer(
            after_pointer(button, first),
            second,
        ).just_released,
{
}

} // verus!

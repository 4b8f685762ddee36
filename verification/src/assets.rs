//! Where the sounds of the game are found among its assets.

use crate::random::uniform_index;
use vstd::prelude::*;

verus! {

/// A piece of background music.
#[derive(Clone, Copy, Debug, PartialEq, Eq, Structural)]
pub enum Bgm {
    Credits,
    Titles,
    Gameplay1,
    Gameplay2,
}

/// A sound effect.
#[derive(Clone, Copy, Debug, PartialEq, Eq, Structural)]
pub enum Sfx {
    ButtonHover,
    ButtonPress,
    Crash,
    Collide,
    Dreadnaught,
    Impact,
    Arrival,
    Select,
    Tap,
}

/// Path of a piece of background music below the asset folder.
pub open spec fn bgm_path_spec(track: Bgm) -> Seq<char> {
    match track {
        Bgm::Credits => "audio/bgm/Chase_Me_credits.ogg"@,
        Bgm::Titles => "audio/bgm/Chase_Me_titles.ogg"@,
        Bgm::Gameplay1 => "audio/bgm/Chase_Me_background1.ogg"@,
        Bgm::Gameplay2 => "audio/bgm/Chase_Me_background2.ogg"@,
    }
}

/// Path of a sound effect below the asset folder.
pub open spec fn sfx_path_spec(sound: Sfx) -> Seq<char> {
    match sound {
        Sfx::ButtonHover => "audio/sfx/button_hover.ogg"@,
        Sfx::ButtonPress => "audio/sfx/button_press.ogg"@,
        Sfx::Crash => "audio/sfx/crash-course.ogg"@,
        Sfx::Collide => "audio/sfx/hadron-impact.ogg"@,
        Sfx::Dreadnaught => "audio/sfx/dreadnaught.ogg"@,
        Sfx::Impact => "audio/sfx/impact.ogg"@,
        Sfx::Arrival => "audio/sfx/arrival.ogg"@,
        Sfx::Select => "audio/sfx/select.ogg"@,
        Sfx::Tap => "audio/sfx/tap.ogg"@,
    }
}

/// Path of a piece of background music below the asset folder.
pub fn bgm_path(track: Bgm) -> (path: &'static str)
    ensures
        path@ == bgm_path_spec(track),
{
    match track {
        Bgm::Credits => "audio/bgm/Chase_Me_credits.ogg",
        Bgm::Titles => "audio/bgm/Chase_Me_titles.ogg",
        Bgm::Gameplay1 => "audio/bgm/Chase_Me_background1.ogg",
        Bgm::Gameplay2 => "audio/bgm/Chase_Me_background2.ogg",
    }
}

/// Path of a sound effect below the asset folder.
pub fn sfx_path(sound: Sfx) -> (path: &'static str)
    ensures
        path@ == sfx_path_spec(sound),
{
    match sound {
        Sfx::ButtonHover => "audio/sfx/button_hover.ogg",
        Sfx::ButtonPress => "audio/sfx/button_press.ogg",
        Sfx::Crash => "audio/sfx/crash-course.ogg",
        Sfx::Collide => "audio/sfx/hadron-impact.ogg",
        Sfx::Dreadnaught => "audio/sfx/dreadnaught.ogg",
        Sfx::Impact => "audio/sfx/impact.ogg",
        Sfx::Arrival => "audio/sfx/arrival.ogg",
        Sfx::Select => "audio/sfx/select.ogg",
        Sfx::Tap => "audio/sfx/tap.ogg",
    }
}

/// The pieces of background music that are loaded at the start, in the
/// order in which they are loaded.
pub fn bgm_tracks() -> (tracks: Vec<Bgm>)
    ensures
        tracks@ == seq![Bgm::Credits, Bgm::Gameplay1, Bgm::Gameplay2, Bgm::Titles],
{
    let mut tracks: Vec<Bgm> = Vec::new();
    tracks.push(Bgm::Credits);
    tracks.push(Bgm::Gameplay1);
    tracks.push(Bgm::Gameplay2);
    tracks.push(Bgm::Titles);
    tracks
}

/// The sound effects that are loaded at the start, in the order in which
/// they are loaded.
pub fn sfx_sounds() -> (sounds: Vec<Sfx>)
    ensures
        sounds@ == seq![
            Sfx::ButtonHover,
            Sfx::ButtonPress,
            Sfx::Crash,
            Sfx::Collide,
            Sfx::Dreadnaught,
            Sfx::Impact,
            Sfx::Arrival,
            Sfx::Select,
            Sfx::Tap,
        ],
{
    let mut sounds: Vec<Sfx> = Vec::new();
    sounds.push(Sfx::ButtonHover);
    sounds.push(Sfx::ButtonPress);
    sounds.push(Sfx::Crash);
    sounds.push(Sfx::Collide);
    sounds.push(Sfx::Dreadnaught);
    sounds.push(Sfx::Impact);
    sounds.push(Sfx::Arrival);
    sounds.push(Sfx::Select);
    sounds.push(Sfx::Tap);
    assert(sounds@ =~= seq![
        Sfx::ButtonHover,
        Sfx::ButtonPress,
        Sfx::Crash,
        Sfx::Collide,
        Sfx::Dreadnaught,
        Sfx::Impact,
        Sfx::Arrival,
        Sfx::Select,
        Sfx::Tap,
    ]);
    sounds
}

/// The music of a game given which of the two gameplay pieces was drawn.
pub fn gameplay_track(pick: usize) -> (track: Bgm)
    requires
        pick < 2,
    ensures
        track == (if pick == 0 {
            Bgm::Gameplay1
        } else {
            Bgm::Gameplay2
        }),
{
    if pick == 0 {
        Bgm::Gameplay1
    } else {
        Bgm::Gameplay2
    }
}

/// Picks the music of a game at random from the two gameplay pieces.
pub fn random_gameplay_track() -> (track: Bgm)
    ensures
        track == Bgm::Gameplay1 || track == Bgm::Gameplay2,
{
    gameplay_track(uniform_index(2))
}

} // verus!

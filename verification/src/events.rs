//! The signals that the parts of the game send each other, and the queue
//! that carries them from one tick to the next.

use crate::enemy::Colour;
use vstd::prelude::*;

verus! {

/// Asks for a restart of the game.
#[derive(Clone, Copy, Debug, Default, PartialEq, Eq, Structural)]
pub struct RestartRequested;

/// Asks for the main menu.
#[derive(Clone, Copy, Debug, Default, PartialEq, Eq, Structural)]
pub struct MenuRequested;

/// Asks to pause a running game or to go on with a paused one.
#[derive(Clone, Copy, Debug, Default, PartialEq, Eq, Structural)]
pub struct TogglePauseRequested;

/// The game is over.
#[derive(Clone, Copy, Debug, Default, PartialEq, Eq, Structural)]
pub struct EndGameTriggered;

/// Asks for the options menu.
#[derive(Clone, Copy, Debug, Default, PartialEq, Eq, Structural)]
pub struct OptionsRequested;

/// The options were accepted.
#[derive(Clone, Copy, Debug, Default, PartialEq, Eq, Structural)]
pub struct UpdateOptions;

/// A ship was destroyed at the given place; its colour tints the debris.
#[derive(Clone, Copy, Debug, PartialEq, Eq, Structural)]
pub struct ShipDestroyed {
    pub x: i64,
    pub y: i64,
    pub colour: Colour,
}

/// The ship with the given identity hit something.
#[derive(Clone, Copy, Debug, PartialEq, Eq, Structural)]
pub struct ShipHit {
    pub id: u64,
}

/// A queue of signals of one kind, in the order in which they were sent.
pub struct Events<E> {
    pub queue: Vec<E>,
}

impl<E> View for Events<E> {
    type V = Seq<E>;

    open spec fn view(&self) -> Seq<E> {
        self.queue@
    }
}

impl<E> Events<E> {
    /// An empty queue.
    pub fn new() -> (q: Self)
        ensures
            q@ == Seq::<E>::empty(),
    {
        Events { queue: Vec::new() }
    }

    /// Appends a signal.
    pub fn send(&mut self, event: E)
        ensures
            final(self)@ == old(self)@.push(event),
    {
        self.queue.push(event);
    }

    /// Tells whether no signal is waiting.
    pub fn is_empty(&self) -> (empty: bool)
        ensures
            empty == (self@.len() == 0),
    {
        self.queue.len() == 0
    }

    /// Number of signals that are waiting.
    pub fn len(&self) -> (n: usize)
        ensures
            n == self@.len(),
    {
        self.queue.len()
    }

    /// Drops every waiting signal.
    pub fn clear(&mut self)
        ensures
            final(self)@ == Seq::<E>::empty(),
    {
        self.queue.clear();
    }
}

} // verus!

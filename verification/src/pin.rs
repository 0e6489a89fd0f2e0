//! Generic protocol types related to pins
//!
//! The types in this module are not specific to any test stand setup, and can
//! be re-used for different test stands.

use vstd::prelude::*;

verus! {

/// Index of a pin on the assistant's breakout board, counted from top left
/// counterclockwise to top right.
#[derive(Debug, Eq, PartialEq, Ord, PartialOrd, Hash, Clone, Copy, Structural)]
pub struct PinNumber(pub u8);

impl PinNumber {
    /// Wraps a raw pin index.
    pub fn new(idx: u8) -> (r: Self)
        ensures
            r == PinNumber(idx),
    {
        Self(idx)
    }

    /// Returns the raw pin index.
    pub fn get_pin_idx(&self) -> (r: u8)
        ensures
            r == self.0,
    {
        self.0
    }
}

/// Represents the electrical level of a pin
#[derive(Clone, Copy, Debug, Eq, PartialEq, Structural)]
pub enum Level {
    High,
    Low,
}

/// The direction a pin is configured for
#[derive(Clone, Copy, Debug, Eq, PartialEq, Structural)]
pub enum Direction {
    Input,
    Output,
}

/// Sent by the host to command a test node to set a pin to a specific level
#[derive(Clone, Copy, Debug, Eq, PartialEq, Structural)]
pub struct SetLevel<Id> {
    /// The pin whose level should be set
    pub pin: Id,
    /// The new level of the pin
    pub level: Level,
}

/// Sent by the host to request the current level of a pin
#[derive(Clone, Copy, Debug, Eq, PartialEq, Structural)]
pub struct ReadLevel<Id> {
    /// The pin whose level to read
    pub pin: Id,
}

/// Sent by a test node in response to a `ReadLevel` message
#[derive(Clone, Copy, Debug, Eq, PartialEq, Structural)]
pub struct ReadLevelResult<Id> {
    /// The pin whose level has changed
    pub pin: Id,
    /// The new level of the pin
    pub level: Level,
    /// The period since the last change of this pin's level, in milliseconds
    ///
    /// This value might not be available, because this is the first change of
    /// this pin's level, or because the test node doesn't measure the period.
    pub period_ms: Option<u32>,
}

/// Sent by the host to switch a pin between input and output direction
///
/// A switch to `Input` must carry no level; a switch to `Output` must carry
/// the level to drive. Any other combination is a protocol violation.
#[derive(Clone, Copy, Debug, Eq, PartialEq, Structural)]
pub struct SetDirection<Id> {
    /// The pin whose direction should be set
    pub pin: Id,
    /// The new direction of the pin
    pub direction: Direction,
    /// The level to drive when switching to output
    pub level: Option<Level>,
}

/// Says whether a direction/level combination is legal on the wire:
/// input carries no level, output carries exactly one.
pub open spec fn direction_level_legal(direction: Direction, level: Option<Level>) -> bool {
    match direction {
        Direction::Input => level is None,
        Direction::Output => level is Some,
    }
}

} // verus!

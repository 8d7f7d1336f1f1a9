//! Core data model for a tabletop reaction-roll helper: characters carry
//! named, individually toggleable reaction modifiers, and a six-sided die
//! supplies the randomized part of a roll.

/// Characters and their reaction modifiers.
pub mod character;

/// The six-sided die that drives a reaction roll.
pub mod dice;

/// Messages a presentation layer sends to the application loop.
pub mod message;

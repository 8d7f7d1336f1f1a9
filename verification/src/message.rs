use vstd::prelude::*;

verus! {

/// The requests a presentation layer raises for the application loop.
#[derive(Clone, Copy, Debug, PartialEq, Eq, Structural, PartialOrd, Ord)]
pub enum InterfaceMessage {
    /// The user wants to create a new character.
    NewCharacter,
    /// The user wants to save a character file.
    SaveCharacterAs,
    /// The user wants to open a character file.
    OpenCharacter,
}

} // verus!

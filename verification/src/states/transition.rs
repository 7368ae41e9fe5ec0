use vstd::prelude::*;

verus! {

/// The campaigns of the game.
#[derive(Clone, Copy, Debug, PartialEq, Eq, Structural)]
pub enum CampaignType {
    Normal,
    BonusA,
    BonusB,
}

/// The states the game can move to.
#[derive(Clone, Copy, Debug, PartialEq, Eq, Structural)]
pub enum StateKind {
    Paused,
    MainMenu,
    WinGameMenu(CampaignType),
}

/// A change of the state stack.
#[derive(Clone, Copy, Debug, PartialEq, Eq, Structural)]
pub enum Transition {
    /// Stay in the current state.
    Stay,
    /// Leave the current state, back to the one below.
    Pop,
    /// Put a new state on top of the current one.
    Push(StateKind),
    /// Replace the current state.
    Switch(StateKind),
}

} // verus!

pub mod abilities;
pub mod apply_action_helpers;
pub mod apply_attack_action;
pub mod attacks;
pub mod mutations;

use vstd::prelude::*;

use crate::models::Card;

verus! {

/// A move a player can make.
#[derive(Debug, Clone, Copy, PartialEq, Eq, Hash, Structural)]
pub enum SimpleAction {
    /// Draw `amount` cards.
    DrawCard { amount: u8 },
    /// Put a Pokémon of `player`'s bench at `in_play_idx` into the Active Spot.
    Activate { player: usize, in_play_idx: usize },
    /// Use the active Pokémon's attack at this index.
    Attack(usize),
    /// Put a basic Pokémon from the hand into play at the given slot.
    Place(Card, usize),
    /// End the turn.
    EndTurn,
}

/// A move together with the player who makes it.
#[derive(Debug, Clone, Copy, PartialEq, Eq, Hash, Structural)]
pub struct Action {
    pub actor: usize,
    pub action: SimpleAction,
    pub is_stack: bool,
}

} // verus!

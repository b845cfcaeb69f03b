use vstd::prelude::*;

verus! {

/// An effect scheduled on a given turn of the game.
#[derive(Debug, Clone, Copy, PartialEq, Eq, Hash, Structural)]
pub enum TurnEffect {
    /// The first coin flip of the turn comes up heads.
    ForceFirstHeads,
}

/// An effect attached to one Pokémon in play.
#[derive(Debug, PartialEq, Eq, Hash)]
pub enum CardEffect {
    /// The Pokémon cannot attack.
    CannotAttack,
    /// The Pokémon cannot use the attack with this title.
    CannotUseAttack(String),
    /// When the Pokémon is damaged by an attack, the attacking Pokémon takes
    /// this much damage.
    CounterattackDamage(u32),
}

impl Clone for CardEffect {
    fn clone(&self) -> (r: Self)
        ensures
            r == *self,
    {
        match self {
            CardEffect::CannotAttack => CardEffect::CannotAttack,
            CardEffect::CannotUseAttack(name) => CardEffect::CannotUseAttack(name.clone()),
            CardEffect::CounterattackDamage(amount) => CardEffect::CounterattackDamage(*amount),
        }
    }
}

} // verus!

use vstd::prelude::*;

use rand::rngs::StdRng;

use crate::models::{spec_stage, spec_trainer_type, Card, EnergyType};
use crate::rng::shuffle_cards;

verus! {

broadcast use {vstd::seq_lib::group_to_multiset_ensures, vstd::multiset::group_multiset_axioms};

/// Whether a card is a basic Pokémon.
pub open spec fn spec_is_basic(card: Card) -> bool {
    spec_trainer_type(card.id) is None && spec_stage(card.id) == 0
}

/// Whether a card is a basic Pokémon.
pub fn is_basic(card: &Card) -> (r: bool)
    ensures
        r == spec_is_basic(*card),
{
    card.is_pokemon() && card.get_stage() == 0
}

/// Number of cards drawn into an opening hand.
pub open spec fn opening_hand_size() -> int {
    5
}

/// Whether one of the first five cards of `cards` is a basic Pokémon.
pub open spec fn basic_on_top(cards: Seq<Card>) -> bool {
    exists|i: int| 0 <= i < cards.len() && i < opening_hand_size() && spec_is_basic(#[trigger] cards[i])
}

/// Whether some card of `cards` is a basic Pokémon.
pub open spec fn has_basic(cards: Seq<Card>) -> bool {
    exists|i: int| 0 <= i < cards.len() && spec_is_basic(#[trigger] cards[i])
}

/// A deck: the cards still to be drawn, top first, and the energy types its
/// energy zone generates.
#[derive(Debug, Clone, PartialEq, Eq, Hash, Default)]
pub struct Deck {
    pub cards: Vec<Card>,
    pub energy_types: Vec<EnergyType>,
}

impl Deck {
    /// A deck of these cards, top first, generating these energy types.
    pub fn new(cards: Vec<Card>, energy_types: Vec<EnergyType>) -> (r: Deck)
        ensures
            r.cards@ == cards@,
            r.energy_types@ == energy_types@,
    {
        Deck { cards, energy_types }
    }

    /// An equal copy of the deck.
    pub fn duplicate(&self) -> (r: Deck)
        ensures
            r.cards@ == self.cards@,
            r.energy_types@ == self.energy_types@,
    {
        let mut cards: Vec<Card> = Vec::new();
        let mut i: usize = 0;
        while i < self.cards.len()
            invariant
                i <= self.cards@.len(),
                cards@ == self.cards@.take(i as int),
            decreases self.cards@.len() - i,
        {
            cards.push(self.cards[i]);
            i = i + 1;
        }
        let mut energy_types: Vec<EnergyType> = Vec::new();
        let mut j: usize = 0;
        while j < self.energy_types.len()
            invariant
                j <= self.energy_types@.len(),
                energy_types@ == self.energy_types@.take(j as int),
            decreases self.energy_types@.len() - j,
        {
            energy_types.push(self.energy_types[j]);
            j = j + 1;
        }
        assert(cards@ == self.cards@.take(self.cards@.len() as int));
        assert(energy_types@ == self.energy_types@.take(self.energy_types@.len() as int));
        Deck { cards, energy_types }
    }

    /// Takes the top card, if the deck has one.
    pub fn draw(&mut self) -> (r: Option<Card>)
        ensures
            old(self).cards@.len() == 0 ==> r is None && final(self).cards@ == old(self).cards@,
            old(self).cards@.len() > 0 ==> r == Some(old(self).cards@[0])
                && final(self).cards@ == old(self).cards@.drop_first(),
            final(self).energy_types == old(self).energy_types,
    {
        if self.cards.len() == 0 {
            None
        } else {
            let c = self.cards.remove(0);
            assert(old(self).cards@.remove(0) =~= old(self).cards@.drop_first());
            Some(c)
        }
    }

    /// Shuffles the deck. For the opening shuffle (`initial_shuffle`), a deck
    /// that holds a basic Pokémon ends with one among its top five cards, so
    /// that the opening hand can start the game.
    pub fn shuffle(&mut self, initial_shuffle: bool, rng: &mut StdRng)
        ensures
            final(self).cards@.len() == old(self).cards@.len(),
            final(self).cards@.to_multiset() == old(self).cards@.to_multiset(),
            final(self).energy_types == old(self).energy_types,
            initial_shuffle && has_basic(old(self).cards@) ==> basic_on_top(final(self).cards@),
    {
        shuffle_cards(&mut self.cards, rng);
        if !initial_shuffle {
            return;
        }
        let ghost shuffled = self.cards@;
        let n = self.cards.len();
        let mut idx: usize = 0;
        while idx < n && !is_basic(&self.cards[idx])
            invariant
                n == self.cards@.len(),
                self.cards@ == shuffled,
                idx <= n,
                forall|k: int| 0 <= k < idx ==> !spec_is_basic(#[trigger] shuffled[k]),
            decreases n - idx,
        {
            idx = idx + 1;
        }
        if idx < n && idx >= 5 {
            let top = self.cards[0];
            let found = self.cards[idx];
            self.cards.set(0, found);
            self.cards.set(idx, top);
            proof {
                let s1 = shuffled.update(0, found);
                assert(s1.to_multiset() == shuffled.to_multiset().insert(found).remove(top));
                assert(self.cards@ == s1.update(idx as int, top));
                assert(self.cards@.to_multiset() == s1.to_multiset().insert(top).remove(found));
                assert(shuffled.to_multiset().count(top) > 0);
                assert(shuffled.to_multiset().count(found) > 0);
                assert(self.cards@.to_multiset() =~= shuffled.to_multiset());
                assert(spec_is_basic(self.cards@[0]));
            }
        } else if idx < n {
            assert(spec_is_basic(self.cards@[idx as int]));
        } else {
            assert(!has_basic(shuffled));
            proof {
            if has_basic(old(self).cards@) {
                let i = choose|i: int| 0 <= i < old(self).cards@.len() && spec_is_basic(#[trigger] old(self).cards@[i]);
                let c = old(self).cards@[i];
                assert(old(self).cards@.contains(c));
                assert(shuffled.to_multiset().count(c) > 0);
                assert(shuffled.contains(c));
            }
            }
        }
    }
}

} // verus!

pub mod debug_text;
pub mod laws;
pub mod seq_util;

use vstd::multiset::Multiset;
use vstd::prelude::*;

use crate::actions::{Action, SimpleAction};
use crate::move_generation::{generate_possible_actions, possible_actions};
use crate::deck::Deck;
use crate::effects::TurnEffect;
use crate::models::{spec_name, Card, EnergyType, PlayedCard};
use crate::rng::{choose_energy, gen_index};
use rand::rngs::StdRng;
use std::collections::BTreeMap;
use crate::state::seq_util::{
    first_index_of, is_first_index, lemma_first_index, lemma_remove_multiset,
    lemma_swap_remove_multiset, swap_remove_first,
};

verus! {

broadcast use {vstd::seq_lib::group_to_multiset_ensures, vstd::multiset::group_multiset_axioms};

/// Maximum number of cards in a hand.
pub const MAX_HAND_SIZE: usize = 10;

/// How a game ended.
#[derive(Debug, Clone, Copy, PartialEq, Eq, Hash, Structural)]
pub enum GameOutcome {
    Win(usize),
    Tie,
}

/// The whole state of a game between players 0 and 1.
#[derive(Debug, Clone, PartialEq, Eq, Hash, Default)]
pub struct State {
    // Turn state
    pub winner: Option<GameOutcome>,
    pub points: [u8; 2],
    /// Global turn count.
    pub turn_count: u8,
    /// Player that must choose among the playable actions.
    pub current_player: usize,
    pub end_turn_pending: bool,
    /// Pending choices, each with the player who makes it; the last is next.
    pub move_generation_stack: Vec<(usize, Vec<SimpleAction>)>,
    // Core state
    pub current_energy: Option<EnergyType>,
    pub hands: [Vec<Card>; 2],
    pub decks: [Deck; 2],
    pub discard_piles: [Vec<Card>; 2],
    pub discard_energies: [Vec<EnergyType>; 2],
    /// Slot 0 is the active Pokémon, slots 1 to 3 the bench.
    pub in_play_pokemon: [[Option<PlayedCard>; 4]; 2],
    /// Stadium card in play (affects both players).
    pub active_stadium: Option<Card>,
    // Turn flags
    pub has_played_support: bool,
    pub has_retreated: bool,
    pub has_used_stadium: [bool; 2],
    pub knocked_out_by_opponent_attack_this_turn: bool,
    pub knocked_out_by_opponent_attack_last_turn: bool,
    pub sweets_relay_last_used_turn: [Option<u8>; 2],
    pub sweets_relay_uses_per_game: [u8; 2],
    pub actions_this_turn: u16,
    /// Effects scheduled on each turn, indexed by turn number; turns past the
    /// end of the vector have none.
    pub turn_effects: BTreeMap<u8, Vec<TurnEffect>>,
}

impl State {
    /// The cards in `player`'s hand.
    pub open spec fn hand(self, player: int) -> Seq<Card> {
        self.hands[player]@
    }

    /// The cards in `player`'s deck, top first.
    pub open spec fn deck(self, player: int) -> Seq<Card> {
        self.decks[player].cards@
    }

    /// Whether `player`'s hand has no room left.
    pub open spec fn hand_full(self, player: int) -> bool {
        self.hands[player]@.len() >= MAX_HAND_SIZE
    }

    /// The effects scheduled on turn `turn`.
    pub open spec fn effects_at(self, turn: int) -> Seq<TurnEffect> {
        if 0 <= turn < 256 && self.turn_effects@.contains_key(turn as u8) {
            self.turn_effects@[turn as u8]@
        } else {
            Seq::empty()
        }
    }

    /// A new game between two decks, before any card is drawn.
    pub fn new(deck_a: &Deck, deck_b: &Deck) -> (r: Self)
        ensures
            r.winner is None,
            r.points == [0u8, 0u8],
            r.turn_count == 0,
            r.current_player == 0,
            !r.end_turn_pending,
            r.move_generation_stack@.len() == 0,
            r.current_energy is None,
            r.hand(0).len() == 0 && r.hand(1).len() == 0,
            r.deck(0) == deck_a.cards@ && r.deck(1) == deck_b.cards@,
            r.decks[0].energy_types@ == deck_a.energy_types@,
            r.decks[1].energy_types@ == deck_b.energy_types@,
            r.discard_piles[0]@.len() == 0 && r.discard_piles[1]@.len() == 0,
            r.discard_energies[0]@.len() == 0 && r.discard_energies[1]@.len() == 0,
            forall|p: int, i: int| 0 <= p < 2 && 0 <= i < 4 ==> r.in_play_pokemon[p][i] is None,
            r.active_stadium is None,
            !r.has_played_support && !r.has_retreated,
            r.has_used_stadium == [false, false],
            !r.knocked_out_by_opponent_attack_this_turn,
            !r.knocked_out_by_opponent_attack_last_turn,
            r.sweets_relay_last_used_turn == [None::<u8>, None::<u8>],
            r.sweets_relay_uses_per_game == [0u8, 0u8],
            r.actions_this_turn == 0,
            r.turn_effects@ == Map::<u8, Vec<TurnEffect>>::empty(),
    {
        State {
            winner: None,
            points: [0, 0],
            turn_count: 0,
            current_player: 0,
            end_turn_pending: false,
            move_generation_stack: Vec::new(),
            current_energy: None,
            hands: [Vec::new(), Vec::new()],
            decks: [deck_a.duplicate(), deck_b.duplicate()],
            discard_piles: [Vec::new(), Vec::new()],
            discard_energies: [Vec::new(), Vec::new()],
            in_play_pokemon: [[None, None, None, None], [None, None, None, None]],
            active_stadium: None,
            has_played_support: false,
            has_retreated: false,
            has_used_stadium: [false, false],
            knocked_out_by_opponent_attack_this_turn: false,
            knocked_out_by_opponent_attack_last_turn: false,
            sweets_relay_last_used_turn: [None, None],
            sweets_relay_uses_per_game: [0, 0],
            actions_this_turn: 0,
            turn_effects: BTreeMap::new(),
        }
    }

    /// Name of the stadium in play, if any.
    pub fn get_active_stadium_name(&self) -> (r: Option<String>)
        ensures
            r is Some <==> self.active_stadium is Some,
            r matches Some(name) ==> name@ == spec_name(self.active_stadium.unwrap().id),
    {
        match self.active_stadium {
            Some(card) => Some(card.get_name()),
            None => None,
        }
    }

    /// Puts a stadium into play, returning the one it replaces.
    pub fn set_active_stadium(&mut self, stadium: Card) -> (r: Option<Card>)
        ensures
            r == old(self).active_stadium,
            *final(self) == (State { active_stadium: Some(stadium), ..*old(self) }),
    {
        let previous = self.active_stadium.take();
        self.active_stadium = Some(stadium);
        previous
    }

    /// Remaining HP of the Pokémon at `index` of `player`'s side.
    pub fn get_remaining_hp(&self, player: usize, index: usize) -> (r: u32)
        requires
            player < 2,
            index < 4,
            self.in_play_pokemon[player as int][index as int] is Some,
        ensures
            r == self.in_play_pokemon[player as int][index as int].unwrap().remaining_hp,
    {
        self.in_play_pokemon[player][index].as_ref().unwrap().get_remaining_hp()
    }

    /// Position of the first copy of `card` in `cards`.
    fn position_of(cards: &Vec<Card>, card: &Card) -> (r: usize)
        requires
            cards@.contains(*card),
        ensures
            is_first_index(cards@, *card, r as int),
            r as int == first_index_of(cards@, *card),
    {
        let mut i: usize = 0;
        while i < cards.len() && cards[i] != *card
            invariant
                i <= cards@.len(),
                cards@.contains(*card),
                forall|j: int| 0 <= j < i ==> cards@[j] != *card,
            decreases cards@.len() - i,
        {
            i = i + 1;
        }
        proof {
            if i == cards.len() {
                let w = choose|w: int| 0 <= w < cards@.len() && cards@[w] == *card;
                assert(cards@[w] != *card);
            }
            lemma_first_index(cards@, *card, i as int);
        }
        i
    }

    /// Removes the first copy of `card` from `player`'s hand (by swapping the
    /// last card into its place).
    pub fn remove_card_from_hand(&mut self, current_player: usize, card: &Card)
        requires
            current_player < 2,
            old(self).hand(current_player as int).contains(*card),
        ensures
            final(self).hand(current_player as int) == swap_remove_first(old(self).hand(current_player as int), *card),
            final(self).hand(current_player as int).to_multiset()
                == old(self).hand(current_player as int).to_multiset().remove(*card),
            final(self).hands[1 - current_player] == old(self).hands[1 - current_player],
            *final(self) == (State { hands: final(self).hands, ..*old(self) }),
    {
        let index = Self::position_of(&self.hands[current_player], card);
        proof {
            lemma_swap_remove_multiset(self.hand(current_player as int), index as int);
        }
        self.hands[current_player].swap_remove(index);
    }

    /// Removes the first copy of `card` from `player`'s deck, keeping the
    /// order of the other cards.
    pub fn remove_card_from_deck(&mut self, player: usize, card: &Card)
        requires
            player < 2,
            old(self).deck(player as int).contains(*card),
        ensures
            final(self).deck(player as int) == old(self).deck(player as int).remove(
                first_index_of(old(self).deck(player as int), *card),
            ),
            final(self).deck(player as int).to_multiset()
                == old(self).deck(player as int).to_multiset().remove(*card),
            final(self).decks[player as int].energy_types == old(self).decks[player as int].energy_types,
            final(self).decks[1 - player] == old(self).decks[1 - player],
            *final(self) == (State { decks: final(self).decks, ..*old(self) }),
    {
        let pos = Self::position_of(&self.decks[player].cards, card);
        proof {
            lemma_remove_multiset(self.deck(player as int), pos as int);
        }
        self.decks[player].cards.remove(pos);
    }

    /// Moves the first copy of `card` from `player`'s hand to the discard pile.
    pub fn discard_card_from_hand(&mut self, current_player: usize, card: &Card)
        requires
            current_player < 2,
            old(self).hand(current_player as int).contains(*card),
        ensures
            final(self).hand(current_player as int) == swap_remove_first(old(self).hand(current_player as int), *card),
            final(self).discard_piles[current_player as int]@
                == old(self).discard_piles[current_player as int]@.push(*card),
            final(self).hands[1 - current_player] == old(self).hands[1 - current_player],
            final(self).discard_piles[1 - current_player] == old(self).discard_piles[1 - current_player],
            *final(self) == (State { hands: final(self).hands, discard_piles: final(self).discard_piles, ..*old(self) }),
    {
        self.remove_card_from_hand(current_player, card);
        self.discard_piles[current_player].push(*card);
    }

    /// Adds `card` to `player`'s hand, or hands it back when the hand is full.
    pub fn try_add_card_to_hand(&mut self, player: usize, card: Card) -> (r: Result<(), Card>)
        requires
            player < 2,
        ensures
            old(self).hand_full(player as int) ==> r == Err::<(), Card>(card) && *final(self) == *old(self),
            !old(self).hand_full(player as int) ==> r == Ok::<(), Card>(())
                && final(self).hand(player as int) == old(self).hand(player as int).push(card)
                && final(self).hands[1 - player] == old(self).hands[1 - player]
                && *final(self) == (State { hands: final(self).hands, ..*old(self) }),
    {
        if self.hands[player].len() >= MAX_HAND_SIZE {
            return Err(card);
        }
        self.hands[player].push(card);
        Ok(())
    }

    /// Number of cards a hand of `len` cards can still take, out of `offered`.
    pub open spec fn accepted_count(len: int, offered: int) -> int {
        if len >= MAX_HAND_SIZE {
            0
        } else if offered <= MAX_HAND_SIZE - len {
            offered
        } else {
            MAX_HAND_SIZE - len
        }
    }

    /// Adds cards to `player`'s hand in order until it is full; returns those
    /// that did not fit, in order.
    pub fn add_cards_to_hand(&mut self, player: usize, cards: Vec<Card>) -> (r: Vec<Card>)
        requires
            player < 2,
        ensures
            ({
                let k = Self::accepted_count(old(self).hand(player as int).len() as int, cards@.len() as int);
                &&& final(self).hand(player as int) == old(self).hand(player as int) + cards@.take(k)
                &&& r@ == cards@.skip(k)
            }),
            final(self).hands[1 - player] == old(self).hands[1 - player],
            *final(self) == (State { hands: final(self).hands, ..*old(self) }),
    {
        let mut overflow: Vec<Card> = Vec::new();
        let ghost h0 = self.hand(player as int);
        let ghost k = Self::accepted_count(h0.len() as int, cards@.len() as int);
        let mut i: usize = 0;
        while i < cards.len()
            invariant
                player < 2,
                i <= cards@.len(),
                k == Self::accepted_count(h0.len() as int, cards@.len() as int),
                h0 == old(self).hand(player as int),
                i <= k ==> self.hand(player as int) == h0 + cards@.take(i as int) && overflow@.len() == 0,
                i > k ==> self.hand(player as int) == h0 + cards@.take(k) && overflow@ == cards@.subrange(k, i as int),
                self.hands[1 - player] == old(self).hands[1 - player],
                *self == (State { hands: self.hands, ..*old(self) }),
            decreases cards@.len() - i,
        {
            let card = cards[i];
            match self.try_add_card_to_hand(player, card) {
                Ok(()) => {
                    assert(cards@.take(i + 1) == cards@.take(i as int).push(card));
                },
                Err(c) => {
                    overflow.push(c);
                    assert(overflow@ == cards@.subrange(k, i + 1));
                },
            }
            i = i + 1;
        }
        proof {
            if cards@.len() <= k {
                assert(cards@.take(cards@.len() as int) == cards@);
                assert(k == cards@.len());
            } else {
                assert(overflow@ == cards@.skip(k));
            }
        }
        overflow
    }

    /// The supporter cards in `player`'s hand, in hand order.
    pub fn iter_hand_supporters(&self, player: usize) -> (r: Vec<Card>)
        requires
            player < 2,
        ensures
            r@ == self.hand(player as int).filter(|c: Card| c.is_support_spec()),
    {
        Self::filter_cards(&self.hands[player], 0)
    }

    /// The Pokémon cards in `player`'s deck, in deck order.
    pub fn iter_deck_pokemon(&self, player: usize) -> (r: Vec<Card>)
        requires
            player < 2,
        ensures
            r@ == self.deck(player as int).filter(|c: Card| c.is_pokemon_spec()),
    {
        Self::filter_cards(&self.decks[player].cards, 1)
    }

    /// The Pokémon cards in `player`'s hand, in hand order.
    pub fn iter_hand_pokemon(&self, player: usize) -> (r: Vec<Card>)
        requires
            player < 2,
        ensures
            r@ == self.hand(player as int).filter(|c: Card| c.is_pokemon_spec()),
    {
        Self::filter_cards(&self.hands[player], 1)
    }

    /// The predicate that `filter_cards` keeps: supporters (kind 0) or
    /// Pokémon (kind 1).
    pub open spec fn card_filter(kind: u8) -> spec_fn(Card) -> bool {
        if kind == 0 {
            |c: Card| c.is_support_spec()
        } else {
            |c: Card| c.is_pokemon_spec()
        }
    }

    fn filter_cards(cards: &Vec<Card>, kind: u8) -> (r: Vec<Card>)
        ensures
            r@ == cards@.filter(Self::card_filter(kind)),
    {
        let ghost pred = Self::card_filter(kind);
        let mut out: Vec<Card> = Vec::new();
        let mut i: usize = 0;
        while i < cards.len()
            invariant
                i <= cards@.len(),
                pred == Self::card_filter(kind),
                out@ == cards@.take(i as int).filter(pred),
            decreases cards@.len() - i,
        {
            let c = cards[i];
            let keep = if kind == 0 { c.is_support() } else { c.is_pokemon() };
            proof {
                assert(cards@.take(i + 1) == cards@.take(i as int).push(c));
                cards@.take(i as int).lemma_filter_push(c, pred);
            }
            if keep {
                out.push(c);
            }
            i = i + 1;
        }
        assert(cards@.take(cards@.len() as int) == cards@);
        out
    }

    /// Whether `new` is `old` after `player` draws a card (see
    /// `maybe_draw_card`).
    pub open spec fn draw_post(old: State, new: State, player: int) -> bool {
        if old.hand_full(player) || old.deck(player).len() == 0 {
            new == old
        } else {
            &&& new.hand(player) == old.hand(player).push(old.deck(player)[0])
            &&& new.deck(player) == old.deck(player).drop_first()
            &&& new.decks[player].energy_types == old.decks[player].energy_types
            &&& new.hands[1 - player] == old.hands[1 - player]
            &&& new.decks[1 - player] == old.decks[1 - player]
            &&& new == (State { hands: new.hands, decks: new.decks, ..old })
        }
    }

    /// Draws the top card of `player`'s deck into their hand, unless the hand
    /// is full or the deck is empty.
    pub fn maybe_draw_card(&mut self, player: usize)
        requires
            player < 2,
        ensures
            Self::draw_post(*old(self), *final(self), player as int),
    {
        if self.hands[player].len() >= MAX_HAND_SIZE {
            return;
        }
        if self.decks[player].cards.len() == 0 {
            return;
        }
        let ghost before = *self;
        let drawn = self.decks[player].draw();
        match drawn {
            Some(card) => {
                let added = self.try_add_card_to_hand(player, card);
                assert(added is Ok);
            },
            None => {},
        }
    }

    /// Whether `new` is `old` after the first copy of `card` in `player`'s
    /// deck moves to the end of their hand; nothing changes when the hand is
    /// full.
    pub open spec fn deck_to_hand_post(old: State, new: State, player: int, card: Card) -> bool {
        if old.hand_full(player) {
            new == old
        } else {
            &&& new.hand(player) == old.hand(player).push(card)
            &&& new.deck(player) == old.deck(player).remove(first_index_of(old.deck(player), card))
            &&& new.deck(player).to_multiset() == old.deck(player).to_multiset().remove(card)
            &&& new.decks[player].energy_types == old.decks[player].energy_types
            &&& new.hands[1 - player] == old.hands[1 - player]
            &&& new.decks[1 - player] == old.decks[1 - player]
            &&& new == (State { hands: new.hands, decks: new.decks, ..old })
        }
    }

    /// Moves the first copy of `card` from `player`'s deck to their hand,
    /// unless the hand is full.
    pub fn transfer_card_from_deck_to_hand(&mut self, player: usize, card: &Card)
        requires
            player < 2,
            !old(self).hand_full(player as int) ==> old(self).deck(player as int).contains(*card),
        ensures
            Self::deck_to_hand_post(*old(self), *final(self), player as int, *card),
    {
        if self.hands[player].len() >= MAX_HAND_SIZE {
            return;
        }
        self.remove_card_from_deck(player, card);
        let added = self.try_add_card_to_hand(player, *card);
        assert(added is Ok);
    }

    /// Whether `new` is `old` after the first copy of `card` in `player`'s
    /// hand moves to the bottom of their deck.
    pub open spec fn hand_to_deck_post(old: State, new: State, player: int, card: Card) -> bool {
        &&& new.hand(player) == old.hand(player).remove(first_index_of(old.hand(player), card))
        &&& new.hand(player).to_multiset() == old.hand(player).to_multiset().remove(card)
        &&& new.deck(player) == old.deck(player).push(card)
        &&& new.decks[player].energy_types == old.decks[player].energy_types
        &&& new.hands[1 - player] == old.hands[1 - player]
        &&& new.decks[1 - player] == old.decks[1 - player]
        &&& new == (State { hands: new.hands, decks: new.decks, ..old })
    }

    /// Moves the first copy of `card` from `player`'s hand to the bottom of
    /// their deck, keeping the order of the other cards in hand.
    pub fn transfer_card_from_hand_to_deck(&mut self, player: usize, card: &Card)
        requires
            player < 2,
            old(self).hand(player as int).contains(*card),
        ensures
            Self::hand_to_deck_post(*old(self), *final(self), player as int, *card),
    {
        let pos = Self::position_of(&self.hands[player], card);
        proof {
            lemma_remove_multiset(self.hand(player as int), pos as int);
        }
        self.hands[player].remove(pos);
        self.decks[player].cards.push(*card);
    }

    /// Queues a draw of `amount` cards for `actor`.
    pub fn queue_draw_action(&mut self, actor: usize, amount: u8)
        ensures
            final(self).move_generation_stack@.len() == old(self).move_generation_stack@.len() + 1,
            final(self).move_generation_stack@.drop_last() == old(self).move_generation_stack@,
            final(self).move_generation_stack@.last().0 == actor,
            final(self).move_generation_stack@.last().1@ == seq![SimpleAction::DrawCard { amount }],
            *final(self) == (State { move_generation_stack: final(self).move_generation_stack, ..*old(self) }),
    {
        let mut choices: Vec<SimpleAction> = Vec::new();
        choices.push(SimpleAction::DrawCard { amount });
        self.move_generation_stack.push((actor, choices));
        assert(self.move_generation_stack@.drop_last() == old(self).move_generation_stack@);
    }

    pub open spec fn is_game_over_spec(self) -> bool {
        self.winner is Some || self.turn_count >= 100
    }

    /// Whether the game has ended: a winner is known or the turn limit is hit.
    pub fn is_game_over(&self) -> (r: bool)
        ensures
            r == self.is_game_over_spec(),
    {
        self.winner.is_some() || self.turn_count >= 100
    }

    /// Whether the player to move is on their first turn.
    pub fn is_users_first_turn(&self) -> (r: bool)
        ensures
            r == (self.turn_count <= 2),
    {
        self.turn_count <= 2
    }

    /// Records whether a Pokémon was knocked out by an opponent's attack last turn.
    pub fn set_knocked_out_by_opponent_attack_last_turn(&mut self, value: bool)
        ensures
            *final(self) == (State { knocked_out_by_opponent_attack_last_turn: value, ..*old(self) }),
    {
        self.knocked_out_by_opponent_attack_last_turn = value;
    }

    /// Whether a Pokémon was knocked out by an opponent's attack last turn.
    pub fn get_knocked_out_by_opponent_attack_last_turn(&self) -> (r: bool)
        ensures
            r == self.knocked_out_by_opponent_attack_last_turn,
    {
        self.knocked_out_by_opponent_attack_last_turn
    }

    /// Who must act and the actions open to them.
    pub fn generate_possible_actions(&self) -> (r: (usize, Vec<Action>))
        requires
            self.current_player < 2,
        ensures
            r.0 == possible_actions(*self).0,
            r.1@ == possible_actions(*self).1,
    {
        generate_possible_actions(self)
    }

    /// Puts Pokémon into play for both players: the `i`-th of each list goes
    /// to slot `i` (slot 0 active, 1 to 3 bench); other slots are untouched.
    pub fn set_board(&mut self, player_0: Vec<PlayedCard>, player_1: Vec<PlayedCard>)
        requires
            player_0@.len() <= 4,
            player_1@.len() <= 4,
        ensures
            forall|i: int| 0 <= i < 4 ==> #[trigger] final(self).in_play_pokemon[0][i]
                == if i < player_0@.len() { Some(player_0@[i]) } else { old(self).in_play_pokemon[0][i] },
            forall|i: int| 0 <= i < 4 ==> #[trigger] final(self).in_play_pokemon[1][i]
                == if i < player_1@.len() { Some(player_1@[i]) } else { old(self).in_play_pokemon[1][i] },
            *final(self) == (State { in_play_pokemon: final(self).in_play_pokemon, ..*old(self) }),
    {
        let ghost v0 = player_0@;
        let ghost v1 = player_1@;
        let mut side0 = player_0;
        let mut side1 = player_1;
        // Fill from the last card so that `pop` hands them out with their index.
        let mut n0 = side0.len();
        while n0 > 0
            invariant
                n0 == side0@.len(),
                n0 <= 4,
                n0 <= v0.len(),
                v0.len() <= 4,
                side0@ == v0.take(n0 as int),
                forall|i: int| 0 <= i < 4 ==> #[trigger] self.in_play_pokemon[0][i]
                    == if n0 <= i < v0.len() { Some(v0[i]) } else { old(self).in_play_pokemon[0][i] },
                *self == (State { in_play_pokemon: self.in_play_pokemon, ..*old(self) }),
                self.in_play_pokemon[1] == old(self).in_play_pokemon[1],
            decreases n0,
        {
            let card = side0.pop().unwrap();
            assert(card == v0[n0 - 1]);
            n0 = n0 - 1;
            assert(side0@ =~= v0.take(n0 as int));
            self.in_play_pokemon[0][n0] = Some(card);
        }
        let mut n1 = side1.len();
        while n1 > 0
            invariant
                n1 == side1@.len(),
                n1 <= 4,
                n1 <= v1.len(),
                v1.len() <= 4,
                side1@ == v1.take(n1 as int),
                forall|i: int| 0 <= i < 4 ==> #[trigger] self.in_play_pokemon[1][i]
                    == if n1 <= i < v1.len() { Some(v1[i]) } else { old(self).in_play_pokemon[1][i] },
                forall|i: int| 0 <= i < 4 ==> #[trigger] self.in_play_pokemon[0][i]
                    == if i < v0.len() { Some(v0[i]) } else { old(self).in_play_pokemon[0][i] },
                *self == (State { in_play_pokemon: self.in_play_pokemon, ..*old(self) }),
            decreases n1,
        {
            let card = side1.pop().unwrap();
            assert(card == v1[n1 - 1]);
            n1 = n1 - 1;
            assert(side1@ =~= v1.take(n1 as int));
            self.in_play_pokemon[1][n1] = Some(card);
        }
    }

    /// Appends `effect` to the effects of turn `turn`.
    fn push_turn_effect(&mut self, turn: u8, effect: TurnEffect)
        ensures
            forall|t: int| #[trigger] final(self).effects_at(t)
                == if t == turn { old(self).effects_at(t).push(effect) } else { old(self).effects_at(t) },
            *final(self) == (State { turn_effects: final(self).turn_effects, ..*old(self) }),
    {
        broadcast use vstd::std_specs::btree::group_btree_axioms;
        let mut effects = match self.turn_effects.remove(&turn) {
            Some(v) => v,
            None => Vec::new(),
        };
        let ghost before = effects@;
        assert(before == old(self).effects_at(turn as int));
        effects.push(effect);
        self.turn_effects.insert(turn, effects);
        assert forall|t: int| #[trigger] self.effects_at(t)
            == if t == turn { old(self).effects_at(t).push(effect) } else { old(self).effects_at(t) } by {
            if 0 <= t < 256 && t != turn {
                assert(self.turn_effects@.contains_key(t as u8) == old(self).turn_effects@.contains_key(t as u8));
            }
        }
    }

    /// Schedules `effect` on the current turn and the `duration` turns after
    /// it (0 means the current turn only).
    pub fn add_turn_effect(&mut self, effect: TurnEffect, duration: u8)
        requires
            old(self).turn_count as int + duration as int <= 255,
            duration < 255,
        ensures
            forall|t: int| #[trigger] final(self).effects_at(t)
                == if old(self).turn_count <= t <= old(self).turn_count + duration {
                    old(self).effects_at(t).push(effect)
                } else {
                    old(self).effects_at(t)
                },
            *final(self) == (State { turn_effects: final(self).turn_effects, ..*old(self) }),
    {
        let mut turn_offset: u8 = 0;
        while turn_offset < duration + 1
            invariant
                old(self).turn_count as int + duration as int <= 255,
                duration < 255,
                turn_offset <= duration + 1,
                forall|t: int| #[trigger] self.effects_at(t)
                    == if old(self).turn_count <= t < old(self).turn_count + turn_offset {
                        old(self).effects_at(t).push(effect)
                    } else {
                        old(self).effects_at(t)
                    },
                *self == (State { turn_effects: self.turn_effects, ..*old(self) }),
            decreases duration + 1 - turn_offset,
        {
            let target_turn = self.turn_count + turn_offset;
            self.push_turn_effect(target_turn, effect);
            turn_offset = turn_offset + 1;
        }
    }

    /// Schedules `effect` on exactly the turn `offset` turns from now.
    pub fn add_turn_effect_at_offset(&mut self, effect: TurnEffect, offset: u8)
        requires
            old(self).turn_count as int + offset as int <= 255,
        ensures
            forall|t: int| #[trigger] final(self).effects_at(t)
                == if t == old(self).turn_count + offset {
                    old(self).effects_at(t).push(effect)
                } else {
                    old(self).effects_at(t)
                },
            *final(self) == (State { turn_effects: final(self).turn_effects, ..*old(self) }),
    {
        let target_turn = self.turn_count + offset;
        self.push_turn_effect(target_turn, effect);
    }

    /// The effects scheduled on the current turn.
    pub fn get_current_turn_effects(&self) -> (r: Vec<TurnEffect>)
        ensures
            r@ == self.effects_at(self.turn_count as int),
    {
        broadcast use vstd::std_specs::btree::group_btree_axioms;
        let mut out: Vec<TurnEffect> = Vec::new();
        if let Some(effects) = self.turn_effects.get(&self.turn_count) {
            let mut i: usize = 0;
            while i < effects.len()
                invariant
                    i <= effects@.len(),
                    out@ == effects@.take(i as int),
                decreases effects@.len() - i,
            {
                out.push(effects[i]);
                i = i + 1;
            }
            assert(out@ == effects@.take(effects@.len() as int));
        }
        out
    }

    /// Whether `new` is `old` with a forced heads scheduled on the current
    /// turn.
    pub open spec fn heads_set_post(old: State, new: State) -> bool {
        &&& forall|t: int| #[trigger] new.effects_at(t)
            == if t == old.turn_count {
                old.effects_at(t).push(TurnEffect::ForceFirstHeads)
            } else {
                old.effects_at(t)
            }
        &&& new == (State { turn_effects: new.turn_effects, ..old })
    }

    /// Whether `new` is `old` after a forced heads of the current turn was
    /// used up, `r` telling whether there was one; with none scheduled the
    /// state is unchanged.
    pub open spec fn heads_consumed_post(old: State, new: State, r: bool) -> bool {
        &&& r == old.effects_at(old.turn_count as int).contains(TurnEffect::ForceFirstHeads)
        &&& !r ==> new == old
        &&& forall|t: int| #[trigger] new.effects_at(t)
            == if r && t == old.turn_count {
                old.effects_at(t).remove(first_index_of(old.effects_at(t), TurnEffect::ForceFirstHeads))
            } else {
                old.effects_at(t)
            }
        &&& new == (State { turn_effects: new.turn_effects, ..old })
    }

    /// Schedules the first coin flip of this turn to come up heads.
    pub fn set_pending_will_first_heads(&mut self)
        requires
            old(self).turn_count < 255,
        ensures
            Self::heads_set_post(*old(self), *final(self)),
    {
        self.add_turn_effect(TurnEffect::ForceFirstHeads, 0);
    }

    /// Whether a forced first heads is scheduled on this turn.
    pub fn has_pending_will_first_heads(&self) -> (r: bool)
        ensures
            r == self.effects_at(self.turn_count as int).contains(TurnEffect::ForceFirstHeads),
    {
        let effects = self.get_current_turn_effects();
        let mut i: usize = 0;
        while i < effects.len() && effects[i] != TurnEffect::ForceFirstHeads
            invariant
                i <= effects@.len(),
                forall|j: int| 0 <= j < i ==> effects@[j] != TurnEffect::ForceFirstHeads,
            decreases effects@.len() - i,
        {
            i = i + 1;
        }
        proof {
            if i == effects.len() {
                assert(!effects@.contains(TurnEffect::ForceFirstHeads));
            } else {
                assert(effects@[i as int] == TurnEffect::ForceFirstHeads);
            }
        }
        i < effects.len()
    }

    /// Uses up a forced first heads scheduled on this turn: removes its first
    /// occurrence and returns true, or returns false if none is scheduled.
    pub fn consume_pending_will_first_heads(&mut self) -> (r: bool)
        ensures
            Self::heads_consumed_post(*old(self), *final(self), r),
    {
        broadcast use vstd::std_specs::btree::group_btree_axioms;
        let turn = self.turn_count;
        let position = match self.turn_effects.get(&turn) {
            None => None,
            Some(effects) => {
                let mut i: usize = 0;
                while i < effects.len() && effects[i] != TurnEffect::ForceFirstHeads
                    invariant
                        i <= effects@.len(),
                        forall|j: int| 0 <= j < i ==> effects@[j] != TurnEffect::ForceFirstHeads,
                    decreases effects@.len() - i,
                {
                    i = i + 1;
                }
                if i < effects.len() {
                    proof {
                        lemma_first_index(effects@, TurnEffect::ForceFirstHeads, i as int);
                    }
                    Some(i)
                } else {
                    assert(!effects@.contains(TurnEffect::ForceFirstHeads));
                    None
                }
            },
        };
        let i = match position {
            None => {
                return false;
            },
            Some(i) => i,
        };
        let mut effects = match self.turn_effects.remove(&turn) {
            Some(v) => v,
            None => Vec::new(),
        };
        let ghost before = effects@;
        assert(before == old(self).effects_at(turn as int));
        effects.remove(i);
        self.turn_effects.insert(turn, effects);
        assert forall|t: int| #[trigger] self.effects_at(t)
            == if t == old(self).turn_count {
                old(self).effects_at(t).remove(first_index_of(old(self).effects_at(t), TurnEffect::ForceFirstHeads))
            } else {
                old(self).effects_at(t)
            } by {
            if 0 <= t < 256 && t != turn {
                assert(self.turn_effects@.contains_key(t as u8) == old(self).turn_effects@.contains_key(t as u8));
            }
        }
        true
    }

    /// Whether the slot `new` holds the Pokémon of slot `old` after end-of-turn
    /// maintenance (an empty slot stays empty).
    pub open spec fn slot_maintained(old: Option<PlayedCard>, new: Option<PlayedCard>) -> bool {
        match old {
            None => new is None,
            Some(o) => new matches Some(n) && n.is_maintained_from(o),
        }
    }

    /// End-of-turn maintenance: every Pokémon in play of both players is
    /// maintained, the per-turn flags are reset, and the current player may
    /// use the stadium again.
    pub fn end_turn_maintenance(&mut self)
        requires
            old(self).current_player < 2,
        ensures
            forall|p: int, i: int| 0 <= p < 2 && 0 <= i < 4 ==> Self::slot_maintained(
                #[trigger] old(self).in_play_pokemon[p][i],
                final(self).in_play_pokemon[p][i],
            ),
            final(self).has_used_stadium[old(self).current_player as int] == false,
            final(self).has_used_stadium[1 - old(self).current_player] == old(self).has_used_stadium[1 - old(self).current_player],
            *final(self) == (State {
                in_play_pokemon: final(self).in_play_pokemon,
                has_played_support: false,
                has_retreated: false,
                has_used_stadium: final(self).has_used_stadium,
                ..*old(self)
            }),
    {
        let mut p: usize = 0;
        while p < 2
            invariant
                p <= 2,
                old(self).current_player < 2,
                forall|q: int, i: int| 0 <= q < p && 0 <= i < 4 ==> Self::slot_maintained(
                    #[trigger] old(self).in_play_pokemon[q][i],
                    self.in_play_pokemon[q][i],
                ),
                forall|q: int, i: int| p <= q < 2 && 0 <= i < 4 ==>
                    #[trigger] self.in_play_pokemon[q][i] == old(self).in_play_pokemon[q][i],
                *self == (State { in_play_pokemon: self.in_play_pokemon, ..*old(self) }),
            decreases 2 - p,
        {
            let mut i: usize = 0;
            while i < 4
                invariant
                    p < 2,
                    i <= 4,
                    old(self).current_player < 2,
                    forall|q: int, j: int| 0 <= q < p && 0 <= j < 4 ==> Self::slot_maintained(
                        #[trigger] old(self).in_play_pokemon[q][j],
                        self.in_play_pokemon[q][j],
                    ),
                    forall|j: int| 0 <= j < i ==> Self::slot_maintained(
                        #[trigger] old(self).in_play_pokemon[p as int][j],
                        self.in_play_pokemon[p as int][j],
                    ),
                    forall|j: int| i <= j < 4 ==>
                        #[trigger] self.in_play_pokemon[p as int][j] == old(self).in_play_pokemon[p as int][j],
                    forall|q: int, j: int| p < q < 2 && 0 <= j < 4 ==>
                        #[trigger] self.in_play_pokemon[q][j] == old(self).in_play_pokemon[q][j],
                    *self == (State { in_play_pokemon: self.in_play_pokemon, ..*old(self) }),
                decreases 4 - i,
            {
                if let Some(mut played_card) = self.in_play_pokemon[p][i].take() {
                    played_card.end_turn_maintenance();
                    self.in_play_pokemon[p][i] = Some(played_card);
                }
                i = i + 1;
            }
            p = p + 1;
        }
        self.has_played_support = false;
        self.has_retreated = false;
        self.has_used_stadium[self.current_player] = false;
    }

    /// Generates the current player's energy for the turn, from their deck's
    /// energy types.
    pub fn generate_energy(&mut self)
        requires
            old(self).current_player < 2,
            old(self).decks[old(self).current_player as int].energy_types@.len() > 0,
        ensures
            final(self).current_energy matches Some(e)
                && old(self).decks[old(self).current_player as int].energy_types@.contains(e),
            old(self).decks[old(self).current_player as int].energy_types@.len() == 1
                ==> final(self).current_energy == Some(old(self).decks[old(self).current_player as int].energy_types@[0]),
            *final(self) == (State { current_energy: final(self).current_energy, ..*old(self) }),
    {
        if self.decks[self.current_player].energy_types.len() == 1 {
            self.current_energy = Some(self.decks[self.current_player].energy_types[0]);
        }
        let generated = choose_energy(&self.decks[self.current_player].energy_types);
        self.current_energy = Some(generated.unwrap());
    }

    /// Whether `new` is `old` after the turn ends (see `advance_turn`).
    pub open spec fn advance_turn_post(old: State, new: State) -> bool {
        &&& new.current_player == 1 - old.current_player
        &&& new.turn_count == old.turn_count + 1
        &&& new.actions_this_turn == 0
        &&& !new.end_turn_pending
        &&& forall|p: int, i: int| 0 <= p < 2 && 0 <= i < 4 ==> Self::slot_maintained(
            #[trigger] old.in_play_pokemon[p][i],
            new.in_play_pokemon[p][i],
        )
        &&& !new.has_played_support && !new.has_retreated
        &&& new.has_used_stadium[new.current_player as int] == false
        &&& new.has_used_stadium[old.current_player as int] == old.has_used_stadium[old.current_player as int]
        &&& new.move_generation_stack@.drop_last() == old.move_generation_stack@
        &&& new.move_generation_stack@.len() == old.move_generation_stack@.len() + 1
        &&& new.move_generation_stack@.last().0 == new.current_player
        &&& new.move_generation_stack@.last().1@ == seq![SimpleAction::DrawCard { amount: 1 }]
        &&& new.current_energy matches Some(e) && old.decks[new.current_player as int].energy_types@.contains(e)
        &&& new == (State {
            current_player: new.current_player,
            turn_count: new.turn_count,
            actions_this_turn: 0,
            end_turn_pending: false,
            in_play_pokemon: new.in_play_pokemon,
            has_played_support: false,
            has_retreated: false,
            has_used_stadium: new.has_used_stadium,
            move_generation_stack: new.move_generation_stack,
            current_energy: new.current_energy,
            ..old
        })
    }

    /// What `advance_turn` needs: a valid current player, a turn left to
    /// count, and an energy type in the next player's deck.
    pub open spec fn can_advance_turn(self) -> bool {
        &&& self.current_player < 2
        &&& self.turn_count < 255
        &&& self.decks[1 - self.current_player].energy_types@.len() > 0
    }

    /// Ends the current turn: the other player becomes the current player, the
    /// turn count advances, end-of-turn maintenance runs, a draw of one card is
    /// queued for the new current player and their energy is generated.
    pub fn advance_turn(&mut self)
        requires
            old(self).can_advance_turn(),
        ensures
            Self::advance_turn_post(*old(self), *final(self)),
    {
        self.end_turn_pending = false;
        self.current_player = (self.current_player + 1) % 2;
        self.turn_count = self.turn_count + 1;
        self.actions_this_turn = 0;
        let ghost mid = *self;
        assert(mid.in_play_pokemon == old(self).in_play_pokemon);
        self.end_turn_maintenance();
        let ghost maintained = self.in_play_pokemon;
        self.queue_draw_action(self.current_player, 1);
        self.generate_energy();
        assert(self.in_play_pokemon == maintained);
        assert forall|p: int, i: int| 0 <= p < 2 && 0 <= i < 4 implies Self::slot_maintained(
            #[trigger] old(self).in_play_pokemon[p][i],
            self.in_play_pokemon[p][i],
        ) by {
            assert(old(self).in_play_pokemon[p][i] == mid.in_play_pokemon[p][i]);
        }
    }

    /// Number of `player`'s Pokémon in play of the given energy type.
    pub fn num_in_play_of_type(&self, player: usize, energy: EnergyType) -> (r: usize)
        requires
            player < 2,
        ensures
            r == Self::count_of_type(self.in_play_pokemon[player as int]@, energy, 4),
    {
        let mut count: usize = 0;
        let mut i: usize = 0;
        while i < 4
            invariant
                player < 2,
                i <= 4,
                count == Self::count_of_type(self.in_play_pokemon[player as int]@, energy, i as int),
                count <= i,
            decreases 4 - i,
        {
            if let Some(pokemon) = &self.in_play_pokemon[player][i] {
                if pokemon.get_energy_type() == Some(energy) {
                    count = count + 1;
                }
            }
            i = i + 1;
        }
        count
    }

    /// Number of the first `n` slots holding a Pokémon of energy type `energy`.
    pub open spec fn count_of_type(slots: Seq<Option<PlayedCard>>, energy: EnergyType, n: int) -> int
        decreases n,
    {
        if n <= 0 {
            0
        } else {
            Self::count_of_type(slots, energy, n - 1) + if slots[n - 1] matches Some(pc)
                && crate::models::spec_energy_type(pc.card.id) == Some(energy) {
                1int
            } else {
                0int
            }
        }
    }

    /// Indices in `lo..hi` of the occupied slots, in increasing order.
    pub open spec fn occupied_slots(slots: Seq<Option<PlayedCard>>, lo: int, hi: int) -> Seq<int>
        decreases hi - lo,
    {
        if hi <= lo {
            Seq::empty()
        } else {
            let rest = Self::occupied_slots(slots, lo, hi - 1);
            if slots[hi - 1] is Some {
                rest.push(hi - 1)
            } else {
                rest
            }
        }
    }

    /// Whether `r` lists, in slot order, the occupied slots among `lo..4` of
    /// `slots` with the Pokémon in each.
    pub open spec fn lists_slots(r: Seq<(usize, &PlayedCard)>, slots: Seq<Option<PlayedCard>>, lo: int) -> bool {
        &&& r.map_values(|e: (usize, &PlayedCard)| e.0 as int) == Self::occupied_slots(slots, lo, 4)
        &&& forall|k: int| 0 <= k < r.len() ==> slots[#[trigger] r[k].0 as int] == Some(*r[k].1)
    }

    fn enumerate_from(&self, player: usize, lo: usize) -> (r: Vec<(usize, &PlayedCard)>)
        requires
            player < 2,
            lo <= 1,
        ensures
            Self::lists_slots(r@, self.in_play_pokemon[player as int]@, lo as int),
    {
        let slots = &self.in_play_pokemon[player];
        let mut out: Vec<(usize, &PlayedCard)> = Vec::new();
        let mut i: usize = lo;
        while i < 4
            invariant
                lo <= i <= 4,
                slots@.len() == 4,
                out@.map_values(|e: (usize, &PlayedCard)| e.0 as int) == Self::occupied_slots(slots@, lo as int, i as int),
                forall|k: int| 0 <= k < out@.len() ==> slots@[#[trigger] out@[k].0 as int] == Some(*out@[k].1),
            decreases 4 - i,
        {
            let ghost before = out@;
            if let Some(pokemon) = &slots[i] {
                out.push((i, pokemon));
                assert(out@.map_values(|e: (usize, &PlayedCard)| e.0 as int)
                    =~= before.map_values(|e: (usize, &PlayedCard)| e.0 as int).push(i as int));
            } else {
                assert(out@ == before);
            }
            i = i + 1;
        }
        out
    }

    /// `player`'s Pokémon in play with their slots, active first.
    pub fn enumerate_in_play_pokemon(&self, player: usize) -> (r: Vec<(usize, &PlayedCard)>)
        requires
            player < 2,
        ensures
            Self::lists_slots(r@, self.in_play_pokemon[player as int]@, 0),
    {
        self.enumerate_from(player, 0)
    }

    /// `player`'s benched Pokémon with their slots, e.g. (1, Weezing) if
    /// Weezing is in the first bench slot.
    pub fn enumerate_bench_pokemon(&self, player: usize) -> (r: Vec<(usize, &PlayedCard)>)
        requires
            player < 2,
        ensures
            Self::lists_slots(r@, self.in_play_pokemon[player as int]@, 1),
    {
        self.enumerate_from(player, 1)
    }

    /// `player`'s active Pokémon, if any.
    pub fn maybe_get_active(&self, player: usize) -> (r: Option<&PlayedCard>)
        requires
            player < 2,
        ensures
            r matches Some(pc) ==> self.in_play_pokemon[player as int][0] == Some(*pc),
            r is None <==> self.in_play_pokemon[player as int][0] is None,
    {
        self.in_play_pokemon[player][0].as_ref()
    }

    /// `player`'s active Pokémon, which must be there.
    pub fn get_active(&self, player: usize) -> (r: &PlayedCard)
        requires
            player < 2,
            self.in_play_pokemon[player as int][0] is Some,
        ensures
            self.in_play_pokemon[player as int][0] == Some(*r),
    {
        self.in_play_pokemon[player][0].as_ref().unwrap()
    }

    /// Whether some Pokémon of `player` has the Soothing Wind ability.
    pub open spec fn side_has_soothing_wind(self, player: int) -> bool {
        exists|i: int| 0 <= i < 4 && (#[trigger] self.in_play_pokemon[player][i] is Some)
            && crate::models::spec_has_soothing_wind(self.in_play_pokemon[player][i].unwrap().card.id)
    }

    /// The energy type named by the first Pokémon of `player`, from slot `i`
    /// on, whose ability grants immunity to Pokémon carrying that type.
    pub open spec fn first_energy_immunity(slots: Seq<Option<PlayedCard>>, i: int) -> Option<EnergyType>
        decreases 4 - i,
    {
        if i >= 4 || i < 0 {
            None
        } else if slots[i] is Some
            && crate::models::spec_energy_type_immunity(slots[i].unwrap().card.id) is Some {
            crate::models::spec_energy_type_immunity(slots[i].unwrap().card.id)
        } else {
            Self::first_energy_immunity(slots, i + 1)
        }
    }

    /// Whether `pc`, on `player`'s side, is protected from special conditions
    /// through the energy it carries.
    pub open spec fn energy_immune(self, player: int, pc: PlayedCard) -> bool {
        ||| pc.attached_energy@.len() > 0 && self.side_has_soothing_wind(player)
        ||| Self::first_energy_immunity(self.in_play_pokemon[player]@, 0) matches Some(t)
            && pc.attached_energy@.contains(t)
    }

    /// Whether a special condition on `pc`, on `player`'s side, is blocked.
    pub open spec fn status_blocked(self, player: int, pc: PlayedCard) -> bool {
        pc.self_status_immune() || self.energy_immune(player, pc)
    }

    fn side_has_soothing_wind_exec(&self, player: usize) -> (r: bool)
        requires
            player < 2,
        ensures
            r == self.side_has_soothing_wind(player as int),
    {
        let mut i: usize = 0;
        while i < 4
            invariant
                player < 2,
                i <= 4,
                forall|j: int| 0 <= j < i ==> !((#[trigger] self.in_play_pokemon[player as int][j] is Some)
                    && crate::models::spec_has_soothing_wind(self.in_play_pokemon[player as int][j].unwrap().card.id)),
            decreases 4 - i,
        {
            if let Some(pokemon) = &self.in_play_pokemon[player][i] {
                if crate::models::has_soothing_wind(&pokemon.card) {
                    return true;
                }
            }
            i = i + 1;
        }
        false
    }

    fn side_energy_immunity_exec(&self, player: usize) -> (r: Option<EnergyType>)
        requires
            player < 2,
        ensures
            r == Self::first_energy_immunity(self.in_play_pokemon[player as int]@, 0),
    {
        let mut i: usize = 4;
        let mut found: Option<EnergyType> = None;
        while i > 0
            invariant
                player < 2,
                i <= 4,
                found == Self::first_energy_immunity(self.in_play_pokemon[player as int]@, i as int),
            decreases i,
        {
            i = i - 1;
            if let Some(pokemon) = &self.in_play_pokemon[player][i] {
                let t = crate::models::energy_type_immunity(&pokemon.card);
                if t.is_some() {
                    found = t;
                }
            }
        }
        found
    }

    /// Whether `energies` holds an energy of type `energy`.
    pub fn energy_contains(energies: &Vec<EnergyType>, energy: EnergyType) -> (r: bool)
        ensures
            r == energies@.contains(energy),
    {
        let mut i: usize = 0;
        while i < energies.len()
            invariant
                i <= energies@.len(),
                forall|j: int| 0 <= j < i ==> energies@[j] != energy,
            decreases energies@.len() - i,
        {
            if energies[i] == energy {
                return true;
            }
            i = i + 1;
        }
        false
    }

    /// Whether `new` is `old` after the Pokémon at (`player`, `idx`) is given
    /// `status`: a Pokémon whose condition is not blocked gets it, anything
    /// else is left as it was.
    pub open spec fn status_condition_post(old: State, new: State, player: int, idx: int, status: crate::models::StatusCondition) -> bool {
        let slot = old.in_play_pokemon[player][idx];
        if slot is Some && !old.status_blocked(player, slot.unwrap()) {
            &&& new.in_play_pokemon[player][idx] == Some(slot.unwrap().with_status(status))
            &&& forall|q: int, j: int| 0 <= q < 2 && 0 <= j < 4 && (q != player || j != idx)
                ==> #[trigger] new.in_play_pokemon[q][j] == old.in_play_pokemon[q][j]
            &&& new == (State { in_play_pokemon: new.in_play_pokemon, ..old })
        } else {
            new == old
        }
    }

    /// Applies a special condition to a Pokémon in play, unless it is blocked:
    /// by the Pokémon's own ability or Steel Apron, by Soothing Wind on its
    /// side when it carries energy, or by an ability of its side that protects
    /// Pokémon carrying a given energy type. An empty slot is left alone.
    pub fn apply_status_condition(&mut self, player: usize, in_play_idx: usize, status: crate::models::StatusCondition)
        requires
            player < 2,
            in_play_idx < 4,
        ensures
            Self::status_condition_post(*old(self), *final(self), player as int, in_play_idx as int, status),
    {
        let pokemon = match &self.in_play_pokemon[player][in_play_idx] {
            Some(p) => p,
            None => {
                return;
            },
        };
        if crate::models::is_immune_to_status(&pokemon.card) {
            return;
        }
        if pokemon.has_tool(crate::models::CardId::A4153SteelApron) {
            return;
        }
        let has_energy = pokemon.attached_energy.len() > 0;
        if has_energy {
            if self.side_has_soothing_wind_exec(player) {
                return;
            }
        }
        let required_energy_type_immunity = self.side_energy_immunity_exec(player);
        if let Some(energy_type) = required_energy_type_immunity {
            if Self::energy_contains(&pokemon.attached_energy, energy_type) {
                return;
            }
        }
        let mut target = self.in_play_pokemon[player][in_play_idx].take().unwrap();
        target.set_status_raw(status);
        self.in_play_pokemon[player][in_play_idx] = Some(target);
    }

    /// Whether the Pokémon `pc` of `player`'s side recovers under
    /// `enforce_energy_status_immunities`.
    pub open spec fn cured_slot(self, player: int, slot: Option<PlayedCard>) -> Option<PlayedCard> {
        match slot {
            Some(pc) => if self.energy_immune(player, pc) { Some(pc.cured()) } else { Some(pc) },
            None => None,
        }
    }

    /// The active Pokémon of `player`, to be changed in place.
    pub fn get_active_mut(&mut self, player: usize) -> (r: &mut PlayedCard)
        requires
            player < 2,
            old(self).in_play_pokemon[player as int][0] is Some,
        ensures
            *r == old(self).in_play_pokemon[player as int][0].unwrap(),
            final(self).in_play_pokemon[player as int][0] == Some(*final(r)),
            Self::other_slots_same(*old(self), *final(self), player as int, 0),
            *final(self) == (State { in_play_pokemon: final(self).in_play_pokemon, ..*old(self) }),
    {
        self.in_play_pokemon[player][0].as_mut().unwrap()
    }

    /// Whether `new` is `old` with `amount` energies of type `energy` attached
    /// to the Pokémon at (`player`, `idx`), and the turn's energy used up when
    /// they come from this turn's energy zone.
    pub open spec fn attached_post(
        old: State,
        new: State,
        player: int,
        idx: int,
        energy: EnergyType,
        amount: nat,
        is_turn_energy: bool,
    ) -> bool {
        let pc = old.in_play_pokemon[player][idx].unwrap();
        &&& new.in_play_pokemon[player][idx] matches Some(npc)
            && npc.attached_energy@ == pc.attached_energy@ + Seq::new(amount, |_k: int| energy)
            && npc == (PlayedCard { attached_energy: npc.attached_energy, ..pc })
        &&& Self::other_slots_same(old, new, player, idx)
        &&& new == (State {
            in_play_pokemon: new.in_play_pokemon,
            current_energy: if is_turn_energy { None } else { old.current_energy },
            ..old
        })
    }

    /// Attaches `amount` energies of type `energy` to the Pokémon at
    /// (`player`, `in_play_idx`); energy from this turn's zone uses up the
    /// turn's energy. Then the immunities that energy grants are enforced.
    pub fn attach_energy_from_zone(
        &mut self,
        player: usize,
        in_play_idx: usize,
        energy: EnergyType,
        amount: u8,
        is_turn_energy: bool,
    )
        requires
            player < 2,
            in_play_idx < 4,
            old(self).in_play_pokemon[player as int][in_play_idx as int] is Some,
        ensures
            exists|mid: State| {
                &&& #[trigger] Self::attached_post(
                    *old(self),
                    mid,
                    player as int,
                    in_play_idx as int,
                    energy,
                    amount as nat,
                    is_turn_energy,
                )
                &&& forall|i: int| 0 <= i < 4 ==> #[trigger] final(self).in_play_pokemon[player as int][i]
                    == mid.cured_slot(player as int, mid.in_play_pokemon[player as int][i])
                &&& final(self).in_play_pokemon[1 - player] == mid.in_play_pokemon[1 - player]
                &&& *final(self) == (State { in_play_pokemon: final(self).in_play_pokemon, ..mid })
            },
    {
        let mut pokemon = self.in_play_pokemon[player][in_play_idx].take().unwrap();
        let ghost pc = pokemon;
        let mut k: u8 = 0;
        while k < amount
            invariant
                k <= amount,
                pokemon.attached_energy@ == pc.attached_energy@ + Seq::new(k as nat, |_j: int| energy),
                pokemon == (PlayedCard { attached_energy: pokemon.attached_energy, ..pc }),
            decreases amount - k,
        {
            pokemon.attached_energy.push(energy);
            assert(pc.attached_energy@ + Seq::new((k + 1) as nat, |_j: int| energy)
                =~= (pc.attached_energy@ + Seq::new(k as nat, |_j: int| energy)).push(energy));
            k = k + 1;
        }
        self.in_play_pokemon[player][in_play_idx] = Some(pokemon);
        if is_turn_energy {
            self.current_energy = None;
        }
        let ghost mid = *self;
        assert(Self::attached_post(*old(self), mid, player as int, in_play_idx as int, energy, amount as nat, is_turn_energy));
        self.enforce_energy_status_immunities(player);
    }

    /// Whether `new` is `old` after every Pokémon of `player` that carries
    /// energy making it immune to special conditions is cured.
    pub open spec fn immunities_enforced(old: State, new: State, player: int) -> bool {
        &&& forall|i: int| 0 <= i < 4 ==> #[trigger] new.in_play_pokemon[player][i]
            == old.cured_slot(player, old.in_play_pokemon[player][i])
        &&& new.in_play_pokemon[1 - player] == old.in_play_pokemon[1 - player]
        &&& new == (State { in_play_pokemon: new.in_play_pokemon, ..old })
    }

    /// Cures every Pokémon of `player` that carries energy making it immune to
    /// special conditions (Soothing Wind, or an energy-type immunity ability).
    pub fn enforce_energy_status_immunities(&mut self, player: usize)
        requires
            player < 2,
        ensures
            Self::immunities_enforced(*old(self), *final(self), player as int),
    {
        let has_soothing_wind = self.side_has_soothing_wind_exec(player);
        let required_energy_type_immunity = self.side_energy_immunity_exec(player);
        // Curing changes neither energies nor abilities, so deciding slot by
        // slot while curing is the same as deciding all slots first.
        let mut idx: usize = 0;
        while idx < 4
            invariant
                player < 2,
                idx <= 4,
                has_soothing_wind == old(self).side_has_soothing_wind(player as int),
                required_energy_type_immunity == Self::first_energy_immunity(old(self).in_play_pokemon[player as int]@, 0),
                forall|j: int| 0 <= j < idx ==> #[trigger] self.in_play_pokemon[player as int][j]
                    == old(self).cured_slot(player as int, old(self).in_play_pokemon[player as int][j]),
                forall|j: int| idx <= j < 4 ==> #[trigger] self.in_play_pokemon[player as int][j]
                    == old(self).in_play_pokemon[player as int][j],
                self.in_play_pokemon[1 - player] == old(self).in_play_pokemon[1 - player],
                *self == (State { in_play_pokemon: self.in_play_pokemon, ..*old(self) }),
            decreases 4 - idx,
        {
            if let Some(mut pokemon) = self.in_play_pokemon[player][idx].take() {
                let mut immune = false;
                if has_soothing_wind && pokemon.attached_energy.len() > 0 {
                    immune = true;
                }
                if let Some(energy_type) = required_energy_type_immunity {
                    if Self::energy_contains(&pokemon.attached_energy, energy_type) {
                        immune = true;
                    }
                }
                if immune {
                    pokemon.cure_status_conditions();
                }
                self.in_play_pokemon[player][idx] = Some(pokemon);
            }
            idx = idx + 1;
        }
    }

    /// The tool attached to `pc`, as a sequence of at most one card.
    pub open spec fn tool_seq(pc: PlayedCard) -> Seq<Card> {
        match pc.attached_tool {
            Some(t) => seq![t],
            None => Seq::empty(),
        }
    }

    /// The cards that go to the discard pile when `pc` is discarded from
    /// play: its evolution chain, then its tool, then the card itself.
    pub open spec fn discarded_cards(pc: PlayedCard) -> Seq<Card> {
        pc.cards_behind@ + Self::tool_seq(pc) + seq![pc.card]
    }

    /// Whether `new` is `old` with only slot (`player`, `idx`) of the Pokémon in
    /// play possibly changed.
    pub open spec fn other_slots_same(old: State, new: State, player: int, idx: int) -> bool {
        forall|q: int, j: int| 0 <= q < 2 && 0 <= j < 4 && (q != player || j != idx)
            ==> #[trigger] new.in_play_pokemon[q][j] == old.in_play_pokemon[q][j]
    }

    /// Discards a Pokémon from play: its evolution chain, tool and card go to
    /// the discard pile and its energies to the discarded energies.
    pub fn discard_from_play(&mut self, ko_receiver: usize, ko_pokemon_idx: usize)
        requires
            ko_receiver < 2,
            ko_pokemon_idx < 4,
            old(self).in_play_pokemon[ko_receiver as int][ko_pokemon_idx as int] is Some,
        ensures
            ({
                let pc = old(self).in_play_pokemon[ko_receiver as int][ko_pokemon_idx as int].unwrap();
                &&& final(self).discard_piles[ko_receiver as int]@
                    == old(self).discard_piles[ko_receiver as int]@ + Self::discarded_cards(pc)
                &&& final(self).discard_energies[ko_receiver as int]@
                    == old(self).discard_energies[ko_receiver as int]@ + pc.attached_energy@
            }),
            final(self).in_play_pokemon[ko_receiver as int][ko_pokemon_idx as int] is None,
            Self::other_slots_same(*old(self), *final(self), ko_receiver as int, ko_pokemon_idx as int),
            final(self).discard_piles[1 - ko_receiver] == old(self).discard_piles[1 - ko_receiver],
            final(self).discard_energies[1 - ko_receiver] == old(self).discard_energies[1 - ko_receiver],
            *final(self) == (State {
                discard_piles: final(self).discard_piles,
                discard_energies: final(self).discard_energies,
                in_play_pokemon: final(self).in_play_pokemon,
                ..*old(self)
            }),
    {
        let ko_pokemon = self.in_play_pokemon[ko_receiver][ko_pokemon_idx].take().unwrap();
        let ghost pc = ko_pokemon;
        let mut i: usize = 0;
        while i < ko_pokemon.cards_behind.len()
            invariant
                ko_receiver < 2,
                i <= ko_pokemon.cards_behind@.len(),
                self.discard_piles[ko_receiver as int]@
                    == old(self).discard_piles[ko_receiver as int]@ + ko_pokemon.cards_behind@.take(i as int),
                self.discard_piles[1 - ko_receiver] == old(self).discard_piles[1 - ko_receiver],
                self.in_play_pokemon[ko_receiver as int][ko_pokemon_idx as int] is None,
                Self::other_slots_same(*old(self), *self, ko_receiver as int, ko_pokemon_idx as int),
                *self == (State { discard_piles: self.discard_piles, in_play_pokemon: self.in_play_pokemon, ..*old(self) }),
            decreases ko_pokemon.cards_behind@.len() - i,
        {
            self.discard_piles[ko_receiver].push(ko_pokemon.cards_behind[i]);
            assert(ko_pokemon.cards_behind@.take(i + 1) == ko_pokemon.cards_behind@.take(i as int).push(ko_pokemon.cards_behind@[i as int]));
            i = i + 1;
        }
        assert(ko_pokemon.cards_behind@.take(i as int) == ko_pokemon.cards_behind@);
        if let Some(tool_card) = ko_pokemon.attached_tool {
            self.discard_piles[ko_receiver].push(tool_card);
        }
        self.discard_piles[ko_receiver].push(ko_pokemon.card);
        assert(self.discard_piles[ko_receiver as int]@
            =~= old(self).discard_piles[ko_receiver as int]@ + Self::discarded_cards(pc));
        let ghost snap = *self;
        let mut j: usize = 0;
        while j < ko_pokemon.attached_energy.len()
            invariant
                ko_receiver < 2,
                *self == (State { discard_energies: self.discard_energies, ..snap }),
                j <= ko_pokemon.attached_energy@.len(),
                self.discard_energies[ko_receiver as int]@
                    == old(self).discard_energies[ko_receiver as int]@ + ko_pokemon.attached_energy@.take(j as int),
                self.discard_energies[1 - ko_receiver] == old(self).discard_energies[1 - ko_receiver],
            decreases ko_pokemon.attached_energy@.len() - j,
        {
            self.discard_energies[ko_receiver].push(ko_pokemon.attached_energy[j]);
            assert(ko_pokemon.attached_energy@.take(j + 1) == ko_pokemon.attached_energy@.take(j as int).push(ko_pokemon.attached_energy@[j as int]));
            j = j + 1;
        }
        assert(ko_pokemon.attached_energy@.take(j as int) == ko_pokemon.attached_energy@);
    }

    /// Rescues a Pokémon from play: its evolution chain and card go back to the
    /// hand (those that do not fit are discarded), its tool to the discard pile
    /// and its energies to the discarded energies.
    pub fn rescue_from_play(&mut self, ko_receiver: usize, ko_pokemon_idx: usize)
        requires
            ko_receiver < 2,
            ko_pokemon_idx < 4,
            old(self).in_play_pokemon[ko_receiver as int][ko_pokemon_idx as int] is Some,
        ensures
            ({
                let pc = old(self).in_play_pokemon[ko_receiver as int][ko_pokemon_idx as int].unwrap();
                let returned = pc.cards_behind@.push(pc.card);
                let k = Self::accepted_count(old(self).hand(ko_receiver as int).len() as int, returned.len() as int);
                &&& final(self).hand(ko_receiver as int) == old(self).hand(ko_receiver as int) + returned.take(k)
                &&& final(self).discard_piles[ko_receiver as int]@
                    == old(self).discard_piles[ko_receiver as int]@ + returned.skip(k) + Self::tool_seq(pc)
                &&& final(self).discard_energies[ko_receiver as int]@
                    == old(self).discard_energies[ko_receiver as int]@ + pc.attached_energy@
            }),
            final(self).in_play_pokemon[ko_receiver as int][ko_pokemon_idx as int] is None,
            Self::other_slots_same(*old(self), *final(self), ko_receiver as int, ko_pokemon_idx as int),
            final(self).hands[1 - ko_receiver] == old(self).hands[1 - ko_receiver],
            final(self).discard_piles[1 - ko_receiver] == old(self).discard_piles[1 - ko_receiver],
            final(self).discard_energies[1 - ko_receiver] == old(self).discard_energies[1 - ko_receiver],
            *final(self) == (State {
                hands: final(self).hands,
                discard_piles: final(self).discard_piles,
                discard_energies: final(self).discard_energies,
                in_play_pokemon: final(self).in_play_pokemon,
                ..*old(self)
            }),
    {
        let ko_pokemon = self.in_play_pokemon[ko_receiver][ko_pokemon_idx].take().unwrap();
        let mut returned_to_hand: Vec<Card> = Vec::new();
        let mut i: usize = 0;
        while i < ko_pokemon.cards_behind.len()
            invariant
                i <= ko_pokemon.cards_behind@.len(),
                returned_to_hand@ == ko_pokemon.cards_behind@.take(i as int),
            decreases ko_pokemon.cards_behind@.len() - i,
        {
            returned_to_hand.push(ko_pokemon.cards_behind[i]);
            i = i + 1;
        }
        returned_to_hand.push(ko_pokemon.card);
        assert(returned_to_hand@ =~= ko_pokemon.cards_behind@.push(ko_pokemon.card));
        let ghost before_add = *self;
        let overflow = self.add_cards_to_hand(ko_receiver, returned_to_hand);
        let ghost after_add = *self;
        let mut m: usize = 0;
        while m < overflow.len()
            invariant
                ko_receiver < 2,
                m <= overflow@.len(),
                self.discard_piles[ko_receiver as int]@
                    == after_add.discard_piles[ko_receiver as int]@ + overflow@.take(m as int),
                self.discard_piles[1 - ko_receiver] == after_add.discard_piles[1 - ko_receiver],
                *self == (State { discard_piles: self.discard_piles, ..after_add }),
            decreases overflow@.len() - m,
        {
            self.discard_piles[ko_receiver].push(overflow[m]);
            assert(overflow@.take(m + 1) == overflow@.take(m as int).push(overflow@[m as int]));
            m = m + 1;
        }
        assert(overflow@.take(m as int) == overflow@);
        if let Some(tool_card) = ko_pokemon.attached_tool {
            self.discard_piles[ko_receiver].push(tool_card);
        }
        assert(self.discard_piles[ko_receiver as int]@ =~= old(self).discard_piles[ko_receiver as int]@
            + overflow@ + Self::tool_seq(ko_pokemon));
        let ghost snap = *self;
        let mut j: usize = 0;
        while j < ko_pokemon.attached_energy.len()
            invariant
                ko_receiver < 2,
                *self == (State { discard_energies: self.discard_energies, ..snap }),
                j <= ko_pokemon.attached_energy@.len(),
                self.discard_energies[ko_receiver as int]@
                    == old(self).discard_energies[ko_receiver as int]@ + ko_pokemon.attached_energy@.take(j as int),
                self.discard_energies[1 - ko_receiver] == old(self).discard_energies[1 - ko_receiver],
            decreases ko_pokemon.attached_energy@.len() - j,
        {
            self.discard_energies[ko_receiver].push(ko_pokemon.attached_energy[j]);
            assert(ko_pokemon.attached_energy@.take(j + 1) == ko_pokemon.attached_energy@.take(j as int).push(ko_pokemon.attached_energy@[j as int]));
            j = j + 1;
        }
        assert(ko_pokemon.attached_energy@.take(j as int) == ko_pokemon.attached_energy@);
    }

    /// Moves the tool attached to a Pokémon in play to the discard pile.
    pub fn discard_tool(&mut self, player: usize, in_play_idx: usize)
        requires
            player < 2,
            in_play_idx < 4,
            old(self).in_play_pokemon[player as int][in_play_idx as int] matches Some(pc)
                && pc.attached_tool is Some,
        ensures
            ({
                let pc = old(self).in_play_pokemon[player as int][in_play_idx as int].unwrap();
                &&& final(self).in_play_pokemon[player as int][in_play_idx as int]
                    == Some(PlayedCard { attached_tool: None, ..pc })
                &&& final(self).discard_piles[player as int]@
                    == old(self).discard_piles[player as int]@.push(pc.attached_tool.unwrap())
            }),
            Self::other_slots_same(*old(self), *final(self), player as int, in_play_idx as int),
            final(self).discard_piles[1 - player] == old(self).discard_piles[1 - player],
            *final(self) == (State {
                discard_piles: final(self).discard_piles,
                in_play_pokemon: final(self).in_play_pokemon,
                ..*old(self)
            }),
    {
        let mut pokemon = self.in_play_pokemon[player][in_play_idx].take().unwrap();
        let tool_card = pokemon.attached_tool.take().unwrap();
        self.in_play_pokemon[player][in_play_idx] = Some(pokemon);
        self.discard_piles[player].push(tool_card);
    }

    /// `energies` after discarding each of `to_discard` in turn, each time the
    /// first copy, by swapping the last energy into its place.
    pub open spec fn after_discarding(energies: Seq<EnergyType>, to_discard: Seq<EnergyType>) -> Seq<EnergyType>
        decreases to_discard.len(),
    {
        if to_discard.len() == 0 {
            energies
        } else {
            swap_remove_first(Self::after_discarding(energies, to_discard.drop_last()), to_discard.last())
        }
    }

    /// Whether each energy of `to_discard` is still attached when its turn to
    /// be discarded comes.
    pub open spec fn can_discard(energies: Seq<EnergyType>, to_discard: Seq<EnergyType>) -> bool
        decreases to_discard.len(),
    {
        if to_discard.len() == 0 {
            true
        } else {
            Self::can_discard(energies, to_discard.drop_last())
                && Self::after_discarding(energies, to_discard.drop_last()).contains(to_discard.last())
        }
    }

    /// Discarding takes exactly the discarded energies out of the multiset of
    /// attached energies.
    pub proof fn lemma_after_discarding_multiset(energies: Seq<EnergyType>, to_discard: Seq<EnergyType>)
        requires
            Self::can_discard(energies, to_discard),
        ensures
            Self::after_discarding(energies, to_discard).to_multiset()
                == energies.to_multiset().sub(to_discard.to_multiset()),
            to_discard.to_multiset().subset_of(energies.to_multiset()),
        decreases to_discard.len(),
    {
        broadcast use vstd::multiset::group_multiset_properties;
        if to_discard.len() == 0 {
            assert(to_discard.to_multiset() =~= Multiset::<EnergyType>::empty());
            assert(energies.to_multiset().sub(Multiset::empty()) =~= energies.to_multiset());
        } else {
            let init = to_discard.drop_last();
            let x = to_discard.last();
            Self::lemma_after_discarding_multiset(energies, init);
            let before = Self::after_discarding(energies, init);
            crate::state::seq_util::lemma_first_index_exists(before, x);
            lemma_swap_remove_multiset(before, first_index_of(before, x));
            assert(init.push(x) =~= to_discard);
            assert(to_discard.to_multiset() == init.to_multiset().insert(x));
            assert(before.to_multiset().count(x) > 0);
            assert(Self::after_discarding(energies, to_discard).to_multiset()
                =~= energies.to_multiset().sub(to_discard.to_multiset()));
            assert(to_discard.to_multiset().subset_of(energies.to_multiset()));
        }
    }

    /// Discards energies from a Pokémon in play: for each energy of
    /// `to_discard` in turn, its first copy is detached and goes to the
    /// discarded energies.
    pub fn discard_energy_from_in_play(&mut self, actor: usize, in_play_idx: usize, to_discard: &[EnergyType])
        requires
            actor < 2,
            in_play_idx < 4,
            old(self).in_play_pokemon[actor as int][in_play_idx as int] matches Some(pc)
                && Self::can_discard(pc.attached_energy@, to_discard@),
        ensures
            ({
                let pc = old(self).in_play_pokemon[actor as int][in_play_idx as int].unwrap();
                let energies = Self::after_discarding(pc.attached_energy@, to_discard@);
                &&& final(self).in_play_pokemon[actor as int][in_play_idx as int] matches Some(npc)
                    && npc.attached_energy@ == energies
                    && npc == (PlayedCard { attached_energy: npc.attached_energy, ..pc })
                &&& energies.to_multiset() == pc.attached_energy@.to_multiset().sub(to_discard@.to_multiset())
                &&& final(self).discard_energies[actor as int]@ == old(self).discard_energies[actor as int]@ + to_discard@
            }),
            Self::other_slots_same(*old(self), *final(self), actor as int, in_play_idx as int),
            final(self).discard_energies[1 - actor] == old(self).discard_energies[1 - actor],
            *final(self) == (State {
                discard_energies: final(self).discard_energies,
                in_play_pokemon: final(self).in_play_pokemon,
                ..*old(self)
            }),
    {
        let mut pokemon = self.in_play_pokemon[actor][in_play_idx].take().unwrap();
        let ghost pc = pokemon;
        let ghost taken = *self;
        let mut discarded: Vec<EnergyType> = Vec::new();
        let mut i: usize = 0;
        while i < to_discard.len()
            invariant
                *self == taken,
                i <= to_discard@.len(),
                Self::can_discard(pc.attached_energy@, to_discard@),
                pokemon.attached_energy@ == Self::after_discarding(pc.attached_energy@, to_discard@.take(i as int)),
                pokemon == (PlayedCard { attached_energy: pokemon.attached_energy, ..pc }),
                discarded@ == to_discard@.take(i as int),
            decreases to_discard@.len() - i,
        {
            let energy = to_discard[i];
            proof {
                assert(to_discard@.take(i + 1).drop_last() == to_discard@.take(i as int));
                assert(to_discard@.take(i + 1).last() == energy);
                Self::lemma_can_discard_prefix(pc.attached_energy@, to_discard@, i + 1);
            }
            let pos = Self::position_of_energy(&pokemon.attached_energy, energy);
            pokemon.attached_energy.swap_remove(pos);
            discarded.push(energy);
            i = i + 1;
        }
        assert(to_discard@.take(to_discard@.len() as int) == to_discard@);
        proof {
            Self::lemma_after_discarding_multiset(pc.attached_energy@, to_discard@);
        }
        self.in_play_pokemon[actor][in_play_idx] = Some(pokemon);
        let ghost snap = *self;
        let mut j: usize = 0;
        while j < discarded.len()
            invariant
                actor < 2,
                *self == (State { discard_energies: self.discard_energies, ..snap }),
                j <= discarded@.len(),
                self.discard_energies[actor as int]@ == old(self).discard_energies[actor as int]@ + discarded@.take(j as int),
                self.discard_energies[1 - actor] == old(self).discard_energies[1 - actor],
            decreases discarded@.len() - j,
        {
            self.discard_energies[actor].push(discarded[j]);
            assert(discarded@.take(j + 1) == discarded@.take(j as int).push(discarded@[j as int]));
            j = j + 1;
        }
        assert(discarded@.take(j as int) == discarded@);
    }

    /// A prefix of a discard list that can be carried out can be carried out.
    proof fn lemma_can_discard_prefix(energies: Seq<EnergyType>, to_discard: Seq<EnergyType>, n: int)
        requires
            Self::can_discard(energies, to_discard),
            0 <= n <= to_discard.len(),
        ensures
            Self::can_discard(energies, to_discard.take(n)),
        decreases to_discard.len() - n,
    {
        if n < to_discard.len() {
            let longer = to_discard.take(n + 1);
            Self::lemma_can_discard_prefix(energies, to_discard, n + 1);
            assert(longer.drop_last() == to_discard.take(n));
        } else {
            assert(to_discard.take(n) == to_discard);
        }
    }

    /// Position of the first copy of `energy` in `energies`.
    fn position_of_energy(energies: &Vec<EnergyType>, energy: EnergyType) -> (r: usize)
        requires
            energies@.contains(energy),
        ensures
            r as int == first_index_of(energies@, energy),
            r < energies@.len(),
    {
        let mut i: usize = 0;
        while i < energies.len() && energies[i] != energy
            invariant
                i <= energies@.len(),
                energies@.contains(energy),
                forall|j: int| 0 <= j < i ==> energies@[j] != energy,
            decreases energies@.len() - i,
        {
            i = i + 1;
        }
        proof {
            if i == energies.len() {
                let w = choose|w: int| 0 <= w < energies@.len() && energies@[w] == energy;
                assert(energies@[w] != energy);
            }
            lemma_first_index(energies@, energy, i as int);
        }
        i
    }

    /// Discards energies from `actor`'s active Pokémon.
    pub fn discard_from_active(&mut self, actor: usize, to_discard: &[EnergyType])
        requires
            actor < 2,
            old(self).in_play_pokemon[actor as int][0] matches Some(pc)
                && Self::can_discard(pc.attached_energy@, to_discard@),
        ensures
            ({
                let pc = old(self).in_play_pokemon[actor as int][0].unwrap();
                let energies = Self::after_discarding(pc.attached_energy@, to_discard@);
                &&& final(self).in_play_pokemon[actor as int][0] matches Some(npc)
                    && npc.attached_energy@ == energies
                    && npc == (PlayedCard { attached_energy: npc.attached_energy, ..pc })
                &&& final(self).discard_energies[actor as int]@ == old(self).discard_energies[actor as int]@ + to_discard@
            }),
            Self::other_slots_same(*old(self), *final(self), actor as int, 0),
            final(self).discard_energies[1 - actor] == old(self).discard_energies[1 - actor],
            *final(self) == (State {
                discard_energies: final(self).discard_energies,
                in_play_pokemon: final(self).in_play_pokemon,
                ..*old(self)
            }),
    {
        self.discard_energy_from_in_play(actor, 0, to_discard);
    }

    /// The promotion choices for `player`: one activation per benched Pokémon.
    pub open spec fn activations(player: usize, bench: Seq<int>) -> Seq<SimpleAction> {
        bench.map_values(|i: int| SimpleAction::Activate { player, in_play_idx: i as usize })
    }

    /// After `player`'s Active Spot has emptied: if they have no benched
    /// Pokémon their opponent wins; otherwise a choice of which benched Pokémon
    /// to promote is put at the bottom of the stack of pending choices.
    pub fn trigger_promotion_or_declare_winner(&mut self, player_with_empty_active: usize)
        requires
            player_with_empty_active < 2,
        ensures
            ({
                let bench = Self::occupied_slots(old(self).in_play_pokemon[player_with_empty_active as int]@, 1, 4);
                if bench.len() == 0 {
                    *final(self) == (State {
                        winner: Some(GameOutcome::Win((1 - player_with_empty_active) as usize)),
                        ..*old(self)
                    })
                } else {
                    &&& final(self).move_generation_stack@.len() == old(self).move_generation_stack@.len() + 1
                    &&& final(self).move_generation_stack@[0].0 == player_with_empty_active
                    &&& final(self).move_generation_stack@[0].1@ == Self::activations(player_with_empty_active, bench)
                    &&& final(self).move_generation_stack@.drop_first() == old(self).move_generation_stack@
                    &&& *final(self) == (State { move_generation_stack: final(self).move_generation_stack, ..*old(self) })
                }
            }),
    {
        let bench = self.enumerate_bench_pokemon(player_with_empty_active);
        if bench.len() == 0 {
            let opponent = (player_with_empty_active + 1) % 2;
            self.winner = Some(GameOutcome::Win(opponent));
            return;
        }
        let ghost slots = self.in_play_pokemon[player_with_empty_active as int]@;
        let ghost indices = Self::occupied_slots(slots, 1, 4);
        let mut possible_moves: Vec<SimpleAction> = Vec::new();
        let mut k: usize = 0;
        while k < bench.len()
            invariant
                k <= bench@.len(),
                bench@.map_values(|e: (usize, &PlayedCard)| e.0 as int) == indices,
                possible_moves@ == Self::activations(player_with_empty_active, indices.take(k as int)),
            decreases bench@.len() - k,
        {
            let (i, _) = bench[k];
            assert(indices[k as int] == i as int);
            possible_moves.push(SimpleAction::Activate { player: player_with_empty_active, in_play_idx: i });
            assert(Self::activations(player_with_empty_active, indices.take(k + 1))
                =~= Self::activations(player_with_empty_active, indices.take(k as int)).push(
                    SimpleAction::Activate { player: player_with_empty_active, in_play_idx: i }));
            k = k + 1;
        }
        assert(indices.take(bench@.len() as int) == indices);
        self.move_generation_stack.insert(0, (player_with_empty_active, possible_moves));
        assert(self.move_generation_stack@.drop_first() =~= old(self).move_generation_stack@);
    }

    /// Number of cards an opening hand draws from a deck of `n` cards.
    pub open spec fn opening_count(n: int) -> int {
        if n < 5 { n } else { 5 }
    }

    /// Cards drawn from a deck of `n` cards after `k` rounds of drawing.
    pub open spec fn drawn_so_far(n: int, k: int) -> int {
        if n < k { n } else { k }
    }

    /// Whether `player`'s hand and deck are the opening of a game played with
    /// `deck`: the deck was shuffled, its top cards (five, or all if fewer)
    /// were drawn, and if it holds a basic Pokémon so does the hand.
    pub open spec fn opening_of(self, player: int, deck: Deck) -> bool {
        let n = Self::opening_count(deck.cards@.len() as int);
        &&& self.hand(player).len() == n
        &&& self.deck(player).len() == deck.cards@.len() - n
        &&& (self.hand(player) + self.deck(player)).to_multiset() == deck.cards@.to_multiset()
        &&& self.decks[player].energy_types@ == deck.energy_types@
        &&& (crate::deck::has_basic(deck.cards@) ==> crate::deck::has_basic(self.hand(player)))
    }

    /// Whether `self` is a game about to start between `deck_a` and
    /// `deck_b`: each player holds the opening of their deck, a starting
    /// player is picked, and nothing else has happened.
    pub open spec fn is_opening(self, deck_a: Deck, deck_b: Deck) -> bool {
        &&& self.opening_of(0, deck_a)
        &&& self.opening_of(1, deck_b)
        &&& self.current_player < 2
        &&& self.winner is None
        &&& self.points == [0u8, 0u8]
        &&& self.turn_count == 0
        &&& self.move_generation_stack@.len() == 0
        &&& self.current_energy is None
        &&& forall|p: int, i: int| 0 <= p < 2 && 0 <= i < 4 ==> self.in_play_pokemon[p][i] is None
        &&& self.discard_piles[0]@.len() == 0 && self.discard_piles[1]@.len() == 0
        &&& self.turn_effects@ == Map::<u8, Vec<TurnEffect>>::empty()
        &&& self.discard_energies[0]@.len() == 0 && self.discard_energies[1]@.len() == 0
        &&& !self.end_turn_pending
        &&& self.active_stadium is None
        &&& !self.has_played_support && !self.has_retreated
        &&& self.has_used_stadium == [false, false]
        &&& !self.knocked_out_by_opponent_attack_this_turn
        &&& !self.knocked_out_by_opponent_attack_last_turn
        &&& self.sweets_relay_last_used_turn == [None::<u8>, None::<u8>]
        &&& self.sweets_relay_uses_per_game == [0u8, 0u8]
        &&& self.actions_this_turn == 0
    }

    /// Starts a game: both decks are shuffled, each player draws five cards
    /// and a coin flip picks the starting player.
    pub fn initialize(deck_a: &Deck, deck_b: &Deck, rng: &mut StdRng) -> (r: Self)
        ensures
            r.is_opening(*deck_a, *deck_b),
    {
        let mut state = Self::new(deck_a, deck_b);
        state.decks[0].shuffle(true, rng);
        state.decks[1].shuffle(true, rng);
        let ghost shuffled0 = state.deck(0);
        let ghost shuffled1 = state.deck(1);
        let mut k: usize = 0;
        while k < 5
            invariant
                k <= 5,
                shuffled0.len() == deck_a.cards@.len(),
                shuffled1.len() == deck_b.cards@.len(),
                state.hand(0) == shuffled0.take(Self::drawn_so_far(shuffled0.len() as int, k as int)),
                state.deck(0) == shuffled0.skip(Self::drawn_so_far(shuffled0.len() as int, k as int)),
                state.hand(1) == shuffled1.take(Self::drawn_so_far(shuffled1.len() as int, k as int)),
                state.deck(1) == shuffled1.skip(Self::drawn_so_far(shuffled1.len() as int, k as int)),
                state.decks[0].energy_types@ == deck_a.energy_types@,
                state.decks[1].energy_types@ == deck_b.energy_types@,
                state.winner is None,
                state.points == [0u8, 0u8],
                state.turn_count == 0,
                state.move_generation_stack@.len() == 0,
                state.current_energy is None,
                forall|p: int, i: int| 0 <= p < 2 && 0 <= i < 4 ==> state.in_play_pokemon[p][i] is None,
                state.discard_piles[0]@.len() == 0 && state.discard_piles[1]@.len() == 0,
                state.turn_effects@ == Map::<u8, Vec<TurnEffect>>::empty(),
                state.discard_energies[0]@.len() == 0 && state.discard_energies[1]@.len() == 0,
                !state.end_turn_pending,
                state.active_stadium is None,
                !state.has_played_support && !state.has_retreated,
                state.has_used_stadium == [false, false],
                !state.knocked_out_by_opponent_attack_this_turn,
                !state.knocked_out_by_opponent_attack_last_turn,
                state.sweets_relay_last_used_turn == [None::<u8>, None::<u8>],
                state.sweets_relay_uses_per_game == [0u8, 0u8],
                state.actions_this_turn == 0,
            decreases 5 - k,
        {
            let ghost before = state;
            state.maybe_draw_card(0);
            state.maybe_draw_card(1);
            proof {
                let n0 = Self::opening_count(shuffled0.len() as int);
                let n1 = Self::opening_count(shuffled1.len() as int);
                if k < n0 {
                    assert(shuffled0.take(k + 1) =~= shuffled0.take(k as int).push(shuffled0.skip(k as int)[0]));
                    assert(shuffled0.skip(k + 1) =~= shuffled0.skip(k as int).drop_first());
                }
                if k < n1 {
                    assert(shuffled1.take(k + 1) =~= shuffled1.take(k as int).push(shuffled1.skip(k as int)[0]));
                    assert(shuffled1.skip(k + 1) =~= shuffled1.skip(k as int).drop_first());
                }
            }
            k = k + 1;
        }
        state.current_player = gen_index(rng, 2);
        proof {
            let n0 = Self::opening_count(shuffled0.len() as int);
            let n1 = Self::opening_count(shuffled1.len() as int);
            Self::lemma_opening_hand(shuffled0, deck_a.cards@, state.hand(0), state.deck(0));
            Self::lemma_opening_hand(shuffled1, deck_b.cards@, state.hand(1), state.deck(1));
        }
        state
    }

    /// The top cards of a shuffled deck, and the rest, hold the deck's cards;
    /// if a basic Pokémon was brought to the top, the hand holds it.
    proof fn lemma_opening_hand(shuffled: Seq<Card>, unshuffled: Seq<Card>, hand: Seq<Card>, rest: Seq<Card>)
        requires
            shuffled.len() == unshuffled.len(),
            shuffled.to_multiset() == unshuffled.to_multiset(),
            crate::deck::has_basic(unshuffled) ==> crate::deck::basic_on_top(shuffled),
            hand == shuffled.take(Self::opening_count(shuffled.len() as int)),
            rest == shuffled.skip(Self::opening_count(shuffled.len() as int)),
        ensures
            hand.len() == Self::opening_count(unshuffled.len() as int),
            rest.len() == unshuffled.len() - Self::opening_count(unshuffled.len() as int),
            (hand + rest).to_multiset() == unshuffled.to_multiset(),
            crate::deck::has_basic(unshuffled) ==> crate::deck::has_basic(hand),
    {
        let n = Self::opening_count(shuffled.len() as int);
        assert(hand + rest =~= shuffled);
        if crate::deck::has_basic(unshuffled) {
            let i = choose|i: int| 0 <= i < shuffled.len() && i < crate::deck::opening_hand_size()
                && crate::deck::spec_is_basic(#[trigger] shuffled[i]);
            assert(hand[i] == shuffled[i]);
        }
    }

    /// `occupied_slots` only looks at the slots in `lo..hi`.
    pub proof fn lemma_occupied_slots_ignore(a: Seq<Option<PlayedCard>>, b: Seq<Option<PlayedCard>>, lo: int, hi: int)
        requires
            forall|i: int| lo <= i < hi ==> (#[trigger] a[i] is Some) == (b[i] is Some),
        ensures
            Self::occupied_slots(a, lo, hi) == Self::occupied_slots(b, lo, hi),
        decreases hi - lo,
    {
        if hi > lo {
            Self::lemma_occupied_slots_ignore(a, b, lo, hi - 1);
        }
    }

    /// Whether slots `a` and `b` hold the same data.
    pub open spec fn same_slot(a: Option<PlayedCard>, b: Option<PlayedCard>) -> bool {
        match (a, b) {
            (None, None) => true,
            (Some(x), Some(y)) => x.same_as(y),
            _ => false,
        }
    }

    /// Whether `self` and `other` hold the same data (the same contents in
    /// each vector).
    pub open spec fn same_as(self, other: State) -> bool {
        &&& self.winner == other.winner
        &&& self.points == other.points
        &&& self.turn_count == other.turn_count
        &&& self.current_player == other.current_player
        &&& self.end_turn_pending == other.end_turn_pending
        &&& self.move_generation_stack@.len() == other.move_generation_stack@.len()
        &&& forall|k: int| 0 <= k < self.move_generation_stack@.len() ==>
            (#[trigger] self.move_generation_stack@[k]).0 == other.move_generation_stack@[k].0
            && self.move_generation_stack@[k].1@ == other.move_generation_stack@[k].1@
        &&& self.current_energy == other.current_energy
        &&& forall|p: int| 0 <= p < 2 ==> {
            &&& #[trigger] self.hands[p]@ == other.hands[p]@
            &&& self.decks[p].cards@ == other.decks[p].cards@
            &&& self.decks[p].energy_types@ == other.decks[p].energy_types@
            &&& self.discard_piles[p]@ == other.discard_piles[p]@
            &&& self.discard_energies[p]@ == other.discard_energies[p]@
        }
        &&& forall|p: int, i: int| 0 <= p < 2 && 0 <= i < 4 ==>
            Self::same_slot(#[trigger] self.in_play_pokemon[p][i], other.in_play_pokemon[p][i])
        &&& self.active_stadium == other.active_stadium
        &&& self.has_played_support == other.has_played_support
        &&& self.has_retreated == other.has_retreated
        &&& self.has_used_stadium == other.has_used_stadium
        &&& self.knocked_out_by_opponent_attack_this_turn == other.knocked_out_by_opponent_attack_this_turn
        &&& self.knocked_out_by_opponent_attack_last_turn == other.knocked_out_by_opponent_attack_last_turn
        &&& self.sweets_relay_last_used_turn == other.sweets_relay_last_used_turn
        &&& self.sweets_relay_uses_per_game == other.sweets_relay_uses_per_game
        &&& self.actions_this_turn == other.actions_this_turn
        &&& self.turn_effects@.dom() == other.turn_effects@.dom()
        &&& forall|t: int| #[trigger] self.effects_at(t) == other.effects_at(t)
    }

    fn copy_cards(v: &Vec<Card>) -> (r: Vec<Card>)
        ensures
            r@ == v@,
    {
        let mut out: Vec<Card> = Vec::new();
        let mut i: usize = 0;
        while i < v.len()
            invariant
                i <= v@.len(),
                out@ == v@.take(i as int),
            decreases v@.len() - i,
        {
            out.push(v[i]);
            i = i + 1;
        }
        assert(out@ == v@.take(v@.len() as int));
        out
    }

    fn copy_energies(v: &Vec<EnergyType>) -> (r: Vec<EnergyType>)
        ensures
            r@ == v@,
    {
        let mut out: Vec<EnergyType> = Vec::new();
        let mut i: usize = 0;
        while i < v.len()
            invariant
                i <= v@.len(),
                out@ == v@.take(i as int),
            decreases v@.len() - i,
        {
            out.push(v[i]);
            i = i + 1;
        }
        assert(out@ == v@.take(v@.len() as int));
        out
    }

    fn copy_actions(v: &Vec<SimpleAction>) -> (r: Vec<SimpleAction>)
        ensures
            r@ == v@,
    {
        let mut out: Vec<SimpleAction> = Vec::new();
        let mut i: usize = 0;
        while i < v.len()
            invariant
                i <= v@.len(),
                out@ == v@.take(i as int),
            decreases v@.len() - i,
        {
            out.push(v[i]);
            i = i + 1;
        }
        assert(out@ == v@.take(v@.len() as int));
        out
    }

    fn copy_slot(slot: &Option<PlayedCard>) -> (r: Option<PlayedCard>)
        ensures
            Self::same_slot(r, *slot),
    {
        match slot {
            Some(pc) => Some(pc.copy()),
            None => None,
        }
    }

    /// A copy holding the same data.
    pub fn copy(&self) -> (r: State)
        ensures
            r.same_as(*self),
    {
        let mut stack: Vec<(usize, Vec<SimpleAction>)> = Vec::new();
        let mut k: usize = 0;
        while k < self.move_generation_stack.len()
            invariant
                k <= self.move_generation_stack@.len(),
                stack@.len() == k,
                forall|j: int| 0 <= j < k ==> (#[trigger] stack@[j]).0 == self.move_generation_stack@[j].0
                    && stack@[j].1@ == self.move_generation_stack@[j].1@,
            decreases self.move_generation_stack@.len() - k,
        {
            let entry = &self.move_generation_stack[k];
            stack.push((entry.0, Self::copy_actions(&entry.1)));
            k = k + 1;
        }
        let turn_effects = self.turn_effects.clone();
        let r = State {
            winner: self.winner,
            points: self.points,
            turn_count: self.turn_count,
            current_player: self.current_player,
            end_turn_pending: self.end_turn_pending,
            move_generation_stack: stack,
            current_energy: self.current_energy,
            hands: [Self::copy_cards(&self.hands[0]), Self::copy_cards(&self.hands[1])],
            decks: [self.decks[0].duplicate(), self.decks[1].duplicate()],
            discard_piles: [Self::copy_cards(&self.discard_piles[0]), Self::copy_cards(&self.discard_piles[1])],
            discard_energies: [
                Self::copy_energies(&self.discard_energies[0]),
                Self::copy_energies(&self.discard_energies[1]),
            ],
            in_play_pokemon: [
                [
                    Self::copy_slot(&self.in_play_pokemon[0][0]),
                    Self::copy_slot(&self.in_play_pokemon[0][1]),
                    Self::copy_slot(&self.in_play_pokemon[0][2]),
                    Self::copy_slot(&self.in_play_pokemon[0][3]),
                ],
                [
                    Self::copy_slot(&self.in_play_pokemon[1][0]),
                    Self::copy_slot(&self.in_play_pokemon[1][1]),
                    Self::copy_slot(&self.in_play_pokemon[1][2]),
                    Self::copy_slot(&self.in_play_pokemon[1][3]),
                ],
            ],
            active_stadium: self.active_stadium,
            has_played_support: self.has_played_support,
            has_retreated: self.has_retreated,
            has_used_stadium: self.has_used_stadium,
            knocked_out_by_opponent_attack_this_turn: self.knocked_out_by_opponent_attack_this_turn,
            knocked_out_by_opponent_attack_last_turn: self.knocked_out_by_opponent_attack_last_turn,
            sweets_relay_last_used_turn: self.sweets_relay_last_used_turn,
            sweets_relay_uses_per_game: self.sweets_relay_uses_per_game,
            actions_this_turn: self.actions_this_turn,
            turn_effects,
        };
        assert forall|p: int, i: int| 0 <= p < 2 && 0 <= i < 4 implies
            Self::same_slot(#[trigger] r.in_play_pokemon[p][i], self.in_play_pokemon[p][i]) by {
            if p == 0 {
                if i == 0 {} else if i == 1 {} else if i == 2 {} else {}
            } else {
                if i == 0 {} else if i == 1 {} else if i == 2 {} else {}
            }
        }
        assert forall|p: int| 0 <= p < 2 implies {
            &&& #[trigger] r.hands[p]@ == self.hands[p]@
            &&& r.decks[p].cards@ == self.decks[p].cards@
            &&& r.decks[p].energy_types@ == self.decks[p].energy_types@
            &&& r.discard_piles[p]@ == self.discard_piles[p]@
            &&& r.discard_energies[p]@ == self.discard_energies[p]@
        } by {
            if p == 0 {} else {}
        }
        r
    }
}

} // verus!

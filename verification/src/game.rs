use vstd::multiset::Multiset;
use vstd::prelude::*;

use rand::rngs::StdRng;

use crate::actions::apply_attack_action::{attack_plan, forecast_attack, lemma_attacks_implemented, lemma_plan_targets};
use crate::actions::attacks::Mechanic;
use crate::actions::apply_action_helpers::{
    attack_use_post, damage_all_post, damage_one_post, damage_step_post, effective_damage, hp_after, slot_type,
};
use crate::actions::mutations::{
    apply_mutation, attack_title_of, choice_post, counter_of, counter_post, effect_post, effect_ready, hits_active, opponent_targets,
    outcome_post, FnMutation,
};
use crate::actions::{Action, SimpleAction};
use crate::deck::Deck;
use crate::models::{spec_attack_mechanic, spec_num_attacks, Card, EnergyType, PlayedCard};
use crate::move_generation::bench_requirement::bench_names;
use crate::move_generation::{attack_actions, empty_slots, place_actions, possible_actions, usable_attacks};
use crate::rng::seeded_rng;
use crate::state::seq_util::swap_remove_first;
use crate::state::{State, MAX_HAND_SIZE};

verus! {

/// How many cards `player` gets when asked to draw `n`: no more than the room
/// left in the hand and the cards left in the deck.
pub open spec fn drawable(state: State, player: int, n: int) -> int {
    let len = state.hands[player]@.len() as int;
    let room: int = if len >= MAX_HAND_SIZE { 0 } else { MAX_HAND_SIZE - len };
    let deck = state.decks[player].cards@.len() as int;
    if n <= room && n <= deck {
        n
    } else if room <= deck {
        room
    } else {
        deck
    }
}

/// Whether `new` is `old` after `player` draws `n` cards, one at a time, each
/// from the top of the deck while the hand has room.
pub open spec fn draws_post(old: State, new: State, player: int, n: int) -> bool {
    let k = drawable(old, player, n);
    &&& new.hand(player) == old.hand(player) + old.deck(player).take(k)
    &&& new.deck(player) == old.deck(player).skip(k)
    &&& new.decks[player].energy_types == old.decks[player].energy_types
    &&& new.hands[1 - player] == old.hands[1 - player]
    &&& new.decks[1 - player] == old.decks[1 - player]
    &&& new == (State { hands: new.hands, decks: new.decks, ..old })
}

/// `player` draws `amount` cards, one at a time.
pub fn draw_cards(state: &mut State, player: usize, amount: u8)
    requires
        player < 2,
    ensures
        draws_post(*old(state), *final(state), player as int, amount as int),
{
    let mut i: u8 = 0;
    proof {
        let p = player as int;
        assert(old(state).hand(p) + old(state).deck(p).take(0) == old(state).hand(p));
        assert(old(state).deck(p).skip(0) == old(state).deck(p));
    }
    while i < amount
        invariant
            player < 2,
            i <= amount,
            draws_post(*old(state), *state, player as int, i as int),
        decreases amount - i,
    {
        let ghost mid = *state;
        let ghost k = drawable(*old(state), player as int, i as int);
        state.maybe_draw_card(player);
        proof {
            let p = player as int;
            if drawable(*old(state), p, i + 1) == k + 1 {
                assert(old(state).deck(p).take(k + 1) == old(state).deck(p).take(k).push(old(state).deck(p)[k]));
                assert(mid.deck(p)[0] == old(state).deck(p)[k]);
                assert(old(state).deck(p).skip(k + 1) == mid.deck(p).drop_first());
            } else {
                assert(drawable(*old(state), p, i + 1) == k);
            }
        }
        i = i + 1;
    }
}

/// Whether `new` is `old` with the Pokémon in `player`'s slots 0 and `idx`
/// exchanged.
pub open spec fn activate_post(old: State, new: State, player: int, idx: int) -> bool {
    &&& new.in_play_pokemon[player][0] == old.in_play_pokemon[player][idx]
    &&& new.in_play_pokemon[player][idx] == old.in_play_pokemon[player][0]
    &&& forall|q: int, j: int| 0 <= q < 2 && 0 <= j < 4 && (q != player || (j != 0 && j != idx))
        ==> #[trigger] new.in_play_pokemon[q][j] == old.in_play_pokemon[q][j]
    &&& new == (State { in_play_pokemon: new.in_play_pokemon, ..old })
}

/// Moves the Pokémon in `player`'s slot `idx` to the Active Spot and the
/// active one to slot `idx`.
pub fn swap_with_active(state: &mut State, player: usize, idx: usize)
    requires
        player < 2,
        idx < 4,
    ensures
        activate_post(*old(state), *final(state), player as int, idx as int),
{
    let active = state.in_play_pokemon[player][0].take();
    let other = state.in_play_pokemon[player][idx].take();
    state.in_play_pokemon[player][0] = other;
    state.in_play_pokemon[player][idx] = active;
}

/// Whether `new` is `old` with `card` moved from `player`'s hand into slot
/// `idx` as a fresh Pokémon.
pub open spec fn placed_post(old: State, new: State, player: int, card: Card, idx: int) -> bool {
    &&& new.hand(player) == swap_remove_first(old.hand(player), card)
    &&& new.hands[1 - player] == old.hands[1 - player]
    &&& new.in_play_pokemon[player][idx] matches Some(pc) && pc.is_fresh(card, true)
    &&& State::other_slots_same(old, new, player, idx)
    &&& new == (State { hands: new.hands, in_play_pokemon: new.in_play_pokemon, ..old })
}

/// Whether `new` is `old` after `player` puts `card` from their hand into
/// play in slot `idx`: the card enters play, then every Pokémon of `player`
/// that its energy makes immune to special conditions is cured.
pub open spec fn place_post(old: State, new: State, player: int, card: Card, idx: int) -> bool {
    exists|mid: State| #[trigger] placed_post(old, mid, player, card, idx) && State::immunities_enforced(mid, new, player)
}

/// Puts `card` from `player`'s hand into play in slot `idx`.
pub fn place_card(state: &mut State, player: usize, card: Card, idx: usize)
    requires
        player < 2,
        idx < 4,
        old(state).hand(player as int).contains(card),
    ensures
        place_post(*old(state), *final(state), player as int, card, idx as int),
{
    state.remove_card_from_hand(player, &card);
    state.in_play_pokemon[player][idx] = Some(PlayedCard::new(card, true));
    let ghost mid = *state;
    assert(placed_post(*old(state), mid, player as int, card, idx as int));
    state.enforce_energy_status_immunities(player);
}

/// Whether `new` is `old` with the top of the stack of pending choices
/// removed when `action` was chosen from it.
pub open spec fn pop_post(old: State, new: State, action: Action) -> bool {
    &&& new.move_generation_stack@ == if action.is_stack && old.move_generation_stack@.len() > 0 {
        old.move_generation_stack@.drop_last()
    } else {
        old.move_generation_stack@
    }
    &&& new == (State { move_generation_stack: new.move_generation_stack, ..old })
}

/// Whether `new` is `mid` after the move of `action`.
pub open spec fn step_post(mid: State, new: State, action: Action) -> bool {
    let actor = action.actor as int;
    match action.action {
        SimpleAction::DrawCard { amount } => draws_post(mid, new, actor, amount as int),
        SimpleAction::Activate { player, in_play_idx } => activate_post(mid, new, player as int, in_play_idx as int),
        SimpleAction::Attack(idx) => exists|m: Option<Mechanic>| {
            &&& #[trigger] spec_attack_mechanic(mid.in_play_pokemon[actor][0].unwrap().card.id, idx as int, m)
            &&& match attack_plan(mid, actor, idx as int, m) {
                None => false,
                Some((targets, effect)) => exists|after: State| {
                    &&& #[trigger] outcome_post(mid, after, targets, effect, action)
                    &&& new == (State { end_turn_pending: true, ..after })
                },
            }
        },
        SimpleAction::Place(card, idx) => place_post(mid, new, actor, card, idx as int),
        SimpleAction::EndTurn => State::advance_turn_post(mid, new),
    }
}

/// Whether `new` is `old` after `action`: the pending choice it answers is
/// removed, then its move is made. An attack resolves its outcome and leaves
/// only the end of the turn to do.
pub open spec fn apply_post(old: State, new: State, action: Action) -> bool {
    exists|mid: State| #[trigger] pop_post(old, mid, action) && step_post(mid, new, action)
}

/// Whether `action` can be applied to `state`: the slots it names exist, an
/// attack has an active Pokémon and names one of its attacks, a card placed
/// is in the hand, and the turn can end.
pub open spec fn action_ok(state: State, action: Action) -> bool {
    let actor = action.actor as int;
    &&& action.actor < 2
    &&& match action.action {
        SimpleAction::DrawCard { .. } => true,
        SimpleAction::Activate { player, in_play_idx } => player < 2 && in_play_idx < 4,
        SimpleAction::Attack(idx) => state.in_play_pokemon[actor][0] matches Some(pc)
            && idx < spec_num_attacks(pc.card.id),
        SimpleAction::Place(card, idx) => idx < 4 && state.hand(actor).contains(card),
        SimpleAction::EndTurn => state.can_advance_turn(),
    }
}

/// Whether `action` can be applied to `state`.
pub fn can_apply(state: &State, action: &Action) -> (r: bool)
    ensures
        r == action_ok(*state, *action),
{
    if action.actor >= 2 {
        return false;
    }
    match action.action {
        SimpleAction::DrawCard { .. } => true,
        SimpleAction::Activate { player, in_play_idx } => player < 2 && in_play_idx < 4,
        SimpleAction::Attack(idx) => match &state.in_play_pokemon[action.actor][0] {
            Some(pc) => idx < pc.card.num_attacks(),
            None => false,
        },
        SimpleAction::Place(card, idx) => {
            if idx >= 4 {
                return false;
            }
            let hand = &state.hands[action.actor];
            let mut k: usize = 0;
            while k < hand.len()
                invariant
                    k <= hand@.len(),
                    action.actor < 2,
                    idx < 4,
                    action.action == SimpleAction::Place(card, idx),
                    hand@ == state.hand(action.actor as int),
                    forall|m: int| 0 <= m < k ==> hand@[m] != card,
                decreases hand@.len() - k,
            {
                if hand[k] == card {
                    assert(state.hand(action.actor as int)[k as int] == card);
                    return true;
                }
                k = k + 1;
            }
            false
        },
        SimpleAction::EndTurn => {
            state.current_player < 2 && state.turn_count < 255
                && state.decks[1 - state.current_player].energy_types.len() > 0
        },
    }
}

/// A game: its state and the random number generator that shuffled it.
pub struct Game {
    pub state: State,
    pub rng: StdRng,
}

impl Game {
    /// A game between two decks, set up with a generator seeded by `seed`:
    /// both decks shuffled, five cards drawn each, the starting player
    /// picked.
    pub fn new(deck_a: &Deck, deck_b: &Deck, seed: u64) -> (r: Game)
        ensures
            r.state.is_opening(*deck_a, *deck_b),
    {
        let mut rng = seeded_rng(seed);
        let state = State::initialize(deck_a, deck_b, &mut rng);
        Game { state, rng }
    }

    /// A copy of the state.
    pub fn get_state_clone(&self) -> (r: State)
        ensures
            r.same_as(self.state),
    {
        self.state.copy()
    }

    /// Replaces the state.
    pub fn set_state(&mut self, state: State)
        ensures
            final(self).state == state,
    {
        self.state = state;
    }

    /// Applies `action` to the state.
    pub fn apply_action(&mut self, action: &Action)
        requires
            action_ok(old(self).state, *action),
        ensures
            apply_post(old(self).state, final(self).state, *action),
    {
        if action.is_stack {
            let _ = self.state.move_generation_stack.pop();
        }
        let ghost mid = self.state;
        assert(pop_post(old(self).state, mid, *action));
        match action.action {
            SimpleAction::DrawCard { amount } => draw_cards(&mut self.state, action.actor, amount),
            SimpleAction::Activate { player, in_play_idx } => swap_with_active(&mut self.state, player, in_play_idx),
            SimpleAction::Attack(idx) => {
                let outcome = forecast_attack(action.actor, &self.state, idx);
                let ghost m = choose|m: Option<Mechanic>| {
                    &&& spec_attack_mechanic(mid.in_play_pokemon[action.actor as int][0].unwrap().card.id, idx as int, m)
                    &&& match attack_plan(mid, action.actor as int, idx as int, m) {
                        None => outcome is None,
                        Some((targets, effect)) => outcome matches Some(o) && {
                            &&& o.1@.len() == 1
                            &&& o.1@[0].targets@ == targets
                            &&& o.1@[0].additional_effect == effect
                        },
                    }
                };
                proof {
                    lemma_attacks_implemented(mid, action.actor as int, idx as int, m);
                    lemma_plan_targets(mid, action.actor as int, idx as int, m);
                }
                if let Some((_, mutations)) = outcome {
                    apply_mutation(&mutations[0], &mut self.rng, &mut self.state, action);
                    let ghost after = self.state;
                    self.state.end_turn_pending = true;
                    assert(self.state == (State { end_turn_pending: true, ..after }));
                }
            },
            SimpleAction::Place(card, idx) => place_card(&mut self.state, action.actor, card, idx),
            SimpleAction::EndTurn => self.state.advance_turn(),
        }
    }
}

/// Two sides with the same cards in the same slots name the same first
/// energy-type immunity.
proof fn lemma_first_immunity_same(a: Seq<Option<PlayedCard>>, b: Seq<Option<PlayedCard>>, i: int)
    requires
        a.len() == 4,
        b.len() == 4,
        forall|j: int| 0 <= j < 4 ==> (#[trigger] a[j] is Some) == (b[j] is Some),
        forall|j: int| 0 <= j < 4 && a[j] is Some ==> (#[trigger] a[j]).unwrap().card == b[j].unwrap().card,
    ensures
        State::first_energy_immunity(a, i) == State::first_energy_immunity(b, i),
    decreases 4 - i,
{
    if 0 <= i < 4 {
        lemma_first_immunity_same(a, b, i + 1);
    }
}

/// After a Pokémon is put into play, no Pokémon of its side that its energy
/// protects from special conditions has one.
pub proof fn law_place_cures_protected(old: State, new: State, player: int, card: Card, idx: int)
    requires
        0 <= player < 2,
        0 <= idx < 4,
        place_post(old, new, player, card, idx),
    ensures
        forall|i: int| 0 <= i < 4 && (#[trigger] new.in_play_pokemon[player][i]) is Some
            && new.energy_immune(player, new.in_play_pokemon[player][i].unwrap())
            ==> new.in_play_pokemon[player][i].unwrap().no_status(),
{
    let m2 = choose|m2: State| #[trigger] placed_post(old, m2, player, card, idx) && State::immunities_enforced(m2, new, player);
    let a = m2.in_play_pokemon[player]@;
    let b = new.in_play_pokemon[player]@;
    assert forall|j: int| 0 <= j < 4 implies (#[trigger] a[j] is Some) == (b[j] is Some)
        && (a[j] is Some ==> a[j].unwrap().card == b[j].unwrap().card) by {
        assert(new.in_play_pokemon[player][j] == m2.cured_slot(player, m2.in_play_pokemon[player][j]));
    }
    lemma_first_immunity_same(a, b, 0);
    assert(new.side_has_soothing_wind(player) == m2.side_has_soothing_wind(player)) by {
        if new.side_has_soothing_wind(player) {
            let i = choose|i: int| 0 <= i < 4 && (#[trigger] new.in_play_pokemon[player][i] is Some)
                && crate::models::spec_has_soothing_wind(new.in_play_pokemon[player][i].unwrap().card.id);
            assert(b[i] is Some);
        }
        if m2.side_has_soothing_wind(player) {
            let i = choose|i: int| 0 <= i < 4 && (#[trigger] m2.in_play_pokemon[player][i] is Some)
                && crate::models::spec_has_soothing_wind(m2.in_play_pokemon[player][i].unwrap().card.id);
            assert(a[i] is Some);
            assert(new.in_play_pokemon[player][i] is Some);
        }
    }
    assert forall|i: int| 0 <= i < 4 && (#[trigger] new.in_play_pokemon[player][i]) is Some
        && new.energy_immune(player, new.in_play_pokemon[player][i].unwrap())
        implies new.in_play_pokemon[player][i].unwrap().no_status() by {
        assert(new.in_play_pokemon[player][i] == m2.cured_slot(player, m2.in_play_pokemon[player][i]));
        let pc = m2.in_play_pokemon[player][i].unwrap();
        assert(new.in_play_pokemon[player][i].unwrap().attached_energy == pc.attached_energy);
        assert(m2.energy_immune(player, pc));
    }
}

/// Whether a pending choice is made by a player of the game and is a draw
/// or a move of a Pokémon of a player into its Active Spot from one of its
/// four slots.
pub open spec fn entry_wf(entry: (usize, Vec<SimpleAction>)) -> bool {
    &&& entry.0 < 2
    &&& forall|j: int| 0 <= j < entry.1@.len() ==> match #[trigger] entry.1@[j] {
        SimpleAction::DrawCard { .. } => true,
        SimpleAction::Activate { player, in_play_idx } => player < 2 && in_play_idx < 4,
        _ => false,
    }
}

/// Whether every pending choice on the stack is well formed.
pub open spec fn stack_wf(state: State) -> bool {
    forall|k: int| 0 <= k < state.move_generation_stack@.len() ==> entry_wf(#[trigger] state.move_generation_stack@[k])
}

/// Whether the game can go on from `state`: its current player is one of
/// the two, the turn can still end, and the pending choices are well formed.
pub open spec fn game_ready(state: State) -> bool {
    &&& state.can_advance_turn()
    &&& stack_wf(state)
}

proof fn lemma_usable_attacks(pc: PlayedCard, bench: Seq<Seq<char>>, n: int)
    ensures
        forall|k: int| 0 <= k < usable_attacks(pc, bench, n).len() ==>
            ((#[trigger] usable_attacks(pc, bench, n)[k]) matches SimpleAction::Attack(i) && i < n),
    decreases n,
{
    if n > 0 {
        lemma_usable_attacks(pc, bench, n - 1);
    }
}

proof fn lemma_empty_slots(slots: Seq<Option<PlayedCard>>, lo: int, hi: int)
    ensures
        forall|k: int| 0 <= k < empty_slots(slots, lo, hi).len() ==>
            lo <= #[trigger] empty_slots(slots, lo, hi)[k] < hi,
    decreases hi - lo,
{
    if hi > lo {
        lemma_empty_slots(slots, lo, hi - 1);
        let rest = empty_slots(slots, lo, hi - 1);
        assert forall|k: int| 0 <= k < empty_slots(slots, lo, hi).len() implies
            lo <= #[trigger] empty_slots(slots, lo, hi)[k] < hi by {
            if k < rest.len() {
                assert(empty_slots(slots, lo, hi)[k] == rest[k]);
            }
        }
    }
}

proof fn lemma_place_actions(hand: Seq<Card>, empties: Seq<int>)
    requires
        forall|k: int| 0 <= k < empties.len() ==> 0 <= #[trigger] empties[k] < 4,
    ensures
        forall|k: int| 0 <= k < place_actions(hand, empties).len() ==>
            ((#[trigger] place_actions(hand, empties)[k]) matches SimpleAction::Place(card, i)
                && hand.contains(card) && i < 4),
    decreases hand.len(),
{
    if hand.len() > 0 {
        let rest = hand.drop_last();
        lemma_place_actions(rest, empties);
        assert forall|k: int| 0 <= k < place_actions(hand, empties).len() implies
            ((#[trigger] place_actions(hand, empties)[k]) matches SimpleAction::Place(card, i)
                && hand.contains(card) && i < 4) by {
            let before = place_actions(rest, empties);
            if k < before.len() {
                assert(place_actions(hand, empties)[k] == before[k]);
                if let SimpleAction::Place(card, _) = before[k] {
                    let w = choose|w: int| 0 <= w < rest.len() && rest[w] == card;
                    assert(hand[w] == card);
                }
            } else {
                let j = k - before.len();
                assert(place_actions(hand, empties)[k] == SimpleAction::Place(hand.last(), empties[j] as usize));
                assert(hand[hand.len() - 1] == hand.last());
            }
        }
    }
}

/// Every action that move generation offers can be applied: applying an
/// offered action never fails on the state it was offered for.
pub proof fn law_offered_actions_apply(state: State)
    requires
        game_ready(state),
    ensures
        forall|k: int| 0 <= k < possible_actions(state).1.len() ==> action_ok(state, #[trigger] possible_actions(state).1[k]),
{
    let cp = state.current_player;
    let offered = possible_actions(state).1;
    if state.winner is Some {
    } else if state.move_generation_stack@.len() > 0 {
        let top = state.move_generation_stack@.last();
        assert(top == state.move_generation_stack@[state.move_generation_stack@.len() - 1]);
        assert forall|k: int| 0 <= k < offered.len() implies action_ok(state, #[trigger] offered[k]) by {
            assert(offered[k] == Action { actor: top.0, action: top.1@[k], is_stack: true });
            assert(entry_wf(top));
            let a = top.1@[k];
            assert(match a {
                SimpleAction::DrawCard { .. } => true,
                SimpleAction::Activate { player, in_play_idx } => player < 2 && in_play_idx < 4,
                _ => false,
            });
        }
    } else if state.end_turn_pending {
    } else {
        let empties = empty_slots(state.in_play_pokemon[cp as int]@, 0, 4);
        let attacks = attack_actions(state);
        let places = place_actions(state.hand(cp as int), empties);
        let moves = attacks + places + seq![SimpleAction::EndTurn];
        lemma_empty_slots(state.in_play_pokemon[cp as int]@, 0, 4);
        lemma_place_actions(state.hand(cp as int), empties);
        match state.in_play_pokemon[cp as int][0] {
            Some(pc) => lemma_usable_attacks(
                pc,
                bench_names(state.in_play_pokemon[cp as int]@, 4),
                spec_num_attacks(pc.card.id) as int,
            ),
            None => {},
        }
        assert forall|k: int| 0 <= k < offered.len() implies action_ok(state, #[trigger] offered[k]) by {
            assert(offered[k] == Action { actor: cp, action: moves[k], is_stack: false });
            if k < attacks.len() {
                assert(moves[k] == attacks[k]);
            } else if k < attacks.len() + places.len() {
                assert(moves[k] == places[k - attacks.len()]);
            } else {
                assert(moves[k] == SimpleAction::EndTurn);
            }
        }
    }
}

/// Whether `new` keeps what no move but a draw, a placement or the end of a
/// turn changes: the hands, the decks, whose turn it is and the turn count;
/// keeps the pending choices well formed; and lowers no player's points.
pub open spec fn keeps_frame(old: State, new: State) -> bool {
    &&& new.hands == old.hands
    &&& new.decks == old.decks
    &&& new.current_player == old.current_player
    &&& new.turn_count == old.turn_count
    &&& (stack_wf(old) ==> stack_wf(new))
    &&& new.points[0] >= old.points[0]
    &&& new.points[1] >= old.points[1]
}

proof fn lemma_occupied_range(slots: Seq<Option<PlayedCard>>, lo: int, hi: int)
    ensures
        forall|k: int| 0 <= k < State::occupied_slots(slots, lo, hi).len() ==>
            lo <= #[trigger] State::occupied_slots(slots, lo, hi)[k] < hi,
    decreases hi - lo,
{
    if hi > lo {
        lemma_occupied_range(slots, lo, hi - 1);
        let rest = State::occupied_slots(slots, lo, hi - 1);
        assert forall|k: int| 0 <= k < State::occupied_slots(slots, lo, hi).len() implies
            lo <= #[trigger] State::occupied_slots(slots, lo, hi)[k] < hi by {
            if k < rest.len() {
                assert(State::occupied_slots(slots, lo, hi)[k] == rest[k]);
            }
        }
    }
}

/// A choice among the benched Pokémon of side `side` is well formed.
proof fn lemma_activations_wf(entry: (usize, Vec<SimpleAction>), side: usize, slots: Seq<Option<PlayedCard>>)
    requires
        entry.0 < 2,
        side < 2,
        entry.1@ == State::activations(side, State::occupied_slots(slots, 1, 4)),
    ensures
        entry_wf(entry),
{
    lemma_occupied_range(slots, 1, 4);
    let bench = State::occupied_slots(slots, 1, 4);
    assert forall|j: int| 0 <= j < entry.1@.len() implies match #[trigger] entry.1@[j] {
        SimpleAction::DrawCard { .. } => true,
        SimpleAction::Activate { player, in_play_idx } => player < 2 && in_play_idx < 4,
        _ => false,
    } by {
        assert(entry.1@[j] == SimpleAction::Activate { player: side, in_play_idx: bench[j] as usize });
    }
}

/// A stack grown by a well-formed choice at either end stays well formed.
proof fn lemma_stack_grown_wf(old: State, new: State, front: bool)
    requires
        stack_wf(old),
        new.move_generation_stack@.len() == old.move_generation_stack@.len() + 1,
        front ==> new.move_generation_stack@.drop_first() == old.move_generation_stack@
            && entry_wf(new.move_generation_stack@[0]),
        !front ==> new.move_generation_stack@.drop_last() == old.move_generation_stack@
            && entry_wf(new.move_generation_stack@.last()),
    ensures
        stack_wf(new),
{
    let n = new.move_generation_stack@;
    let o = old.move_generation_stack@;
    assert forall|k: int| 0 <= k < n.len() implies entry_wf(#[trigger] n[k]) by {
        if front {
            if k > 0 {
                assert(n[k] == n.drop_first()[k - 1]);
                assert(entry_wf(o[k - 1]));
            }
        } else {
            if k < o.len() {
                assert(n[k] == n.drop_last()[k]);
                assert(entry_wf(o[k]));
            }
        }
    }
}

proof fn lemma_damage_one_frame(
    old: State,
    new: State,
    attacker_type: Option<EnergyType>,
    damage: u32,
    player: int,
    idx: int,
    from_active_attack: bool,
)
    requires
        0 <= player < 2,
        0 <= idx < 4,
        damage_one_post(old, new, attacker_type, damage, player, idx, from_active_attack),
    ensures
        keeps_frame(old, new),
{
    let slot = old.in_play_pokemon[player][idx];
    if slot is Some {
        let pc = slot.unwrap();
        let hp = hp_after(pc.remaining_hp, effective_damage(pc, attacker_type, damage, idx, from_active_attack));
        if hp == 0 {
            let bench = State::occupied_slots(old.in_play_pokemon[player]@, 1, 4);
            if idx == 0 && bench.len() > 0 && stack_wf(old) {
                lemma_activations_wf(new.move_generation_stack@[0], player as usize, old.in_play_pokemon[player]@);
                lemma_stack_grown_wf(old, new, true);
            }
        }
    }
}

proof fn lemma_chain_frame(
    chain: Seq<State>,
    attacker_type: Option<EnergyType>,
    targets: Seq<(u32, usize, usize)>,
    from_active_attack: bool,
    n: int,
)
    requires
        chain.len() == targets.len() + 1,
        0 <= n <= targets.len(),
        forall|k: int| 0 <= k < targets.len() ==> (#[trigger] targets[k]).1 < 2 && targets[k].2 < 4,
        forall|k: int| 0 <= k < targets.len() ==> damage_one_post(
            #[trigger] chain[k],
            chain[k + 1],
            attacker_type,
            targets[k].0,
            targets[k].1 as int,
            targets[k].2 as int,
            from_active_attack,
        ),
    ensures
        keeps_frame(chain[0], chain[n]),
    decreases n,
{
    if n > 0 {
        lemma_chain_frame(chain, attacker_type, targets, from_active_attack, n - 1);
        let t = targets[n - 1];
        lemma_damage_one_frame(chain[n - 1], chain[n], attacker_type, t.0, t.1 as int, t.2 as int, from_active_attack);
    }
}

/// Frames chain: what each of two steps keeps, both keep.
proof fn lemma_frame_trans(a: State, b: State, c: State)
    requires
        keeps_frame(a, b),
        keeps_frame(b, c),
    ensures
        keeps_frame(a, c),
{
}

proof fn lemma_choice_frame(old: State, new: State, chooser: usize, side: usize)
    requires
        chooser < 2,
        side < 2,
        choice_post(old, new, chooser, side),
    ensures
        keeps_frame(old, new),
{
    let bench = State::occupied_slots(old.in_play_pokemon[side as int]@, 1, 4);
    if bench.len() > 0 && stack_wf(old) {
        lemma_activations_wf(new.move_generation_stack@.last(), side, old.in_play_pokemon[side as int]@);
        lemma_stack_grown_wf(old, new, false);
    }
}

proof fn lemma_effect_frame(old: State, mid: State, effect: FnMutation, action: Action)
    requires
        action.actor < 2,
        effect_post(old, mid, effect, action),
    ensures
        keeps_frame(old, mid),
{
    match effect {
        FnMutation::SwitchSelfWithBench => lemma_choice_frame(old, mid, action.actor, action.actor),
        FnMutation::CoinFlipSwitchInOpponentBench => {
            let (m1, forced) = choose|m1: State, forced: bool| {
                &&& #[trigger] State::heads_consumed_post(old, m1, forced)
                &&& if forced {
                    choice_post(m1, mid, action.actor, (1 - action.actor) as usize)
                } else {
                    mid == m1 || choice_post(m1, mid, action.actor, (1 - action.actor) as usize)
                }
            };
            assert(keeps_frame(old, m1));
            if mid != m1 {
                lemma_choice_frame(m1, mid, action.actor, (1 - action.actor) as usize);
            }
            lemma_frame_trans(old, m1, mid);
        },
        _ => {},
    }
}

proof fn lemma_outcome_frame(old: State, new: State, targets: Seq<(u32, usize)>, effect: FnMutation, action: Action)
    requires
        action.actor < 2,
        forall|k: int| 0 <= k < targets.len() ==> (#[trigger] targets[k]).1 < 4,
        outcome_post(old, new, targets, effect, action),
    ensures
        keeps_frame(old, new),
{
    let (mid, damaged) = choose|mid: State, damaged: State| {
        &&& #[trigger] counter_post(mid, damaged, new, targets, action.actor)
        &&& effect_post(old, mid, effect, action)
        &&& damage_step_post(
            mid,
            damaged,
            (action.actor, 0usize),
            opponent_targets(targets, action.actor),
            true,
            attack_title_of(mid, action),
        )
    };
    let recorded = choose|recorded: State| {
        &&& #[trigger] attack_use_post(mid, recorded, action.actor as int, attack_title_of(mid, action))
        &&& damage_all_post(
            recorded,
            damaged,
            slot_type(mid, action.actor as int, 0),
            opponent_targets(targets, action.actor),
            true,
        )
    };
    lemma_effect_frame(old, mid, effect, action);
    let ot = opponent_targets(targets, action.actor);
    assert forall|k: int| 0 <= k < ot.len() implies (#[trigger] ot[k]).1 < 2 && ot[k].2 < 4 by {
        assert(ot[k] == (targets[k].0, (1 - action.actor) as usize, targets[k].1));
    }
    let attacker_type = slot_type(mid, action.actor as int, 0);
    let chain = choose|chain: Seq<State>| #[trigger] chain.len() == ot.len() + 1
        && chain[0] == recorded
        && chain.last() == damaged
        && forall|k: int| 0 <= k < ot.len() ==> damage_one_post(
            #[trigger] chain[k],
            chain[k + 1],
            attacker_type,
            ot[k].0,
            ot[k].1 as int,
            ot[k].2 as int,
            true,
        );
    lemma_chain_frame(chain, attacker_type, ot, true, ot.len() as int);
    assert(keeps_frame(mid, recorded));
    lemma_frame_trans(mid, recorded, damaged);
    lemma_frame_trans(old, mid, damaged);
    if counter_of(mid, 1 - action.actor) is Some && hits_active(targets) {
        lemma_damage_one_frame(damaged, new, None, counter_of(mid, 1 - action.actor).unwrap(), action.actor as int, 0, false);
        lemma_frame_trans(old, damaged, new);
    }
}

/// Every move keeps the pending choices well formed, grows no hand past its
/// limit and takes no point away from a player.
pub proof fn law_apply_keeps_stack_hands_and_points(old: State, new: State, action: Action)
    requires
        action_ok(old, action),
        apply_post(old, new, action),
    ensures
        stack_wf(old) ==> stack_wf(new),
        forall|p: int| 0 <= p < 2 && old.hand(p).len() <= MAX_HAND_SIZE ==> #[trigger] new.hand(p).len() <= MAX_HAND_SIZE,
        new.points[0] >= old.points[0],
        new.points[1] >= old.points[1],
{
    let mid = choose|mid: State| #[trigger] pop_post(old, mid, action) && step_post(mid, new, action);
    if stack_wf(old) {
        assert forall|k: int| 0 <= k < mid.move_generation_stack@.len() implies
            entry_wf(#[trigger] mid.move_generation_stack@[k]) by {
            assert(entry_wf(old.move_generation_stack@[k]));
        }
    }
    let actor = action.actor as int;
    match action.action {
        SimpleAction::Attack(idx) => {
            let m = choose|m: Option<Mechanic>| {
                &&& #[trigger] spec_attack_mechanic(mid.in_play_pokemon[actor][0].unwrap().card.id, idx as int, m)
                &&& match attack_plan(mid, actor, idx as int, m) {
                    None => false,
                    Some((targets, effect)) => exists|after: State| {
                        &&& #[trigger] outcome_post(mid, after, targets, effect, action)
                        &&& new == (State { end_turn_pending: true, ..after })
                    },
                }
            };
            let (targets, effect) = attack_plan(mid, actor, idx as int, m).unwrap();
            lemma_plan_targets(mid, actor, idx as int, m);
            let after = choose|after: State| {
                &&& #[trigger] outcome_post(mid, after, targets, effect, action)
                &&& new == (State { end_turn_pending: true, ..after })
            };
            lemma_outcome_frame(mid, after, targets, effect, action);
            assert(new.hands == after.hands);
            assert(new.hands == old.hands);
        },
        SimpleAction::EndTurn => {
            if stack_wf(mid) {
                let top = new.move_generation_stack@.last();
                assert(top.1@ == seq![SimpleAction::DrawCard { amount: 1 }]);
                assert(entry_wf(top));
                lemma_stack_grown_wf(mid, new, false);
            }
        },
        SimpleAction::DrawCard { amount } => {
            let k = drawable(mid, actor, amount as int);
            assert(new.hand(actor).len() == mid.hand(actor).len() + k);
            assert(new.hands[1 - actor] == mid.hands[1 - actor]);
        },
        SimpleAction::Place(card, idx) => {
            assert(mid.hand(actor) == old.hand(actor));
            assert(mid.hand(actor).contains(card));
            assert(mid.hand(actor).len() > 0);
            crate::state::seq_util::lemma_first_index_exists(mid.hand(actor), card);
            let m2 = choose|m2: State| #[trigger] placed_post(mid, m2, actor, card, idx as int)
                && State::immunities_enforced(m2, new, actor);
            assert(new.hands == m2.hands);
            assert(new.hand(actor).len() == mid.hand(actor).len() - 1);
            assert(new.hands[1 - actor] == mid.hands[1 - actor]);
        },
        SimpleAction::Activate { .. } => {},
    }
}

/// A state set into a game is the one its copy shows.
pub proof fn law_set_state_then_clone(game: Game, state: State, copy: State)
    requires
        game.state == state,
        copy.same_as(game.state),
    ensures
        copy.same_as(state),
{
}

/// The cards a slot holds: the evolution chain, the tool and the card of
/// the Pokémon in it.
pub open spec fn slot_cards(slot: Option<PlayedCard>) -> Multiset<Card> {
    match slot {
        Some(pc) => State::discarded_cards(pc).to_multiset(),
        None => Multiset::empty(),
    }
}

/// The cards of the four slots of a side of the board.
pub open spec fn in_play_cards(slots: Seq<Option<PlayedCard>>) -> Multiset<Card> {
    slot_cards(slots[0]).add(slot_cards(slots[1])).add(slot_cards(slots[2])).add(slot_cards(slots[3]))
}

/// Every card of `player` in the game: hand, deck, discard pile and board.
pub open spec fn player_cards(state: State, player: int) -> Multiset<Card> {
    state.hand(player).to_multiset()
        .add(state.deck(player).to_multiset())
        .add(state.discard_piles[player]@.to_multiset())
        .add(in_play_cards(state.in_play_pokemon[player]@))
}

/// Whether both players own the same cards in `old` and `new`.
pub open spec fn cards_kept(old: State, new: State) -> bool {
    &&& player_cards(new, 0) == player_cards(old, 0)
    &&& player_cards(new, 1) == player_cards(old, 1)
}

proof fn lemma_damage_one_keeps_cards(
    old: State,
    new: State,
    attacker_type: Option<EnergyType>,
    damage: u32,
    player: int,
    idx: int,
    from_active_attack: bool,
)
    requires
        0 <= player < 2,
        0 <= idx < 4,
        damage_one_post(old, new, attacker_type, damage, player, idx, from_active_attack),
    ensures
        cards_kept(old, new),
{
    broadcast use vstd::multiset::group_multiset_axioms;
    let slot = old.in_play_pokemon[player][idx];
    if slot is Some {
        let pc = slot.unwrap();
        let hp = hp_after(pc.remaining_hp, effective_damage(pc, attacker_type, damage, idx, from_active_attack));
        assert forall|q: int, j: int| 0 <= q < 2 && 0 <= j < 4 && (q != player || j != idx) implies
            #[trigger] new.in_play_pokemon[q]@[j] == old.in_play_pokemon[q]@[j] by {
            assert(new.in_play_pokemon[q][j] == old.in_play_pokemon[q][j]);
        }
        if hp > 0 {
            assert(slot_cards(new.in_play_pokemon[player]@[idx]) == slot_cards(old.in_play_pokemon[player]@[idx]));
            assert(in_play_cards(new.in_play_pokemon[player]@) == in_play_cards(old.in_play_pokemon[player]@));
            assert(in_play_cards(new.in_play_pokemon[1 - player]@) == in_play_cards(old.in_play_pokemon[1 - player]@));
        } else {
            let d = old.discard_piles[player]@;
            vstd::seq_lib::lemma_multiset_commutative(d, State::discarded_cards(pc));
            assert(new.discard_piles[player]@.to_multiset()
                =~= d.to_multiset().add(State::discarded_cards(pc).to_multiset()));
            assert(in_play_cards(new.in_play_pokemon[1 - player]@) == in_play_cards(old.in_play_pokemon[1 - player]@));
            assert(player_cards(new, player) =~= player_cards(old, player));
            assert(player_cards(new, 1 - player) =~= player_cards(old, 1 - player));
        }
    }
}

proof fn lemma_chain_keeps_cards(
    chain: Seq<State>,
    attacker_type: Option<EnergyType>,
    targets: Seq<(u32, usize, usize)>,
    from_active_attack: bool,
    n: int,
)
    requires
        chain.len() == targets.len() + 1,
        0 <= n <= targets.len(),
        forall|k: int| 0 <= k < targets.len() ==> (#[trigger] targets[k]).1 < 2 && targets[k].2 < 4,
        forall|k: int| 0 <= k < targets.len() ==> damage_one_post(
            #[trigger] chain[k],
            chain[k + 1],
            attacker_type,
            targets[k].0,
            targets[k].1 as int,
            targets[k].2 as int,
            from_active_attack,
        ),
    ensures
        cards_kept(chain[0], chain[n]),
    decreases n,
{
    if n > 0 {
        lemma_chain_keeps_cards(chain, attacker_type, targets, from_active_attack, n - 1);
        let t = targets[n - 1];
        lemma_damage_one_keeps_cards(chain[n - 1], chain[n], attacker_type, t.0, t.1 as int, t.2 as int, from_active_attack);
    }
}

/// Changing the active Pokémon of `side` in a way that keeps its evolution
/// chain, tool and card keeps every player's cards.
proof fn lemma_slot_change_keeps_cards(old: State, new: State, side: int)
    requires
        0 <= side < 2,
        old.in_play_pokemon[side][0] matches Some(pc) && new.in_play_pokemon[side][0] matches Some(npc)
            && npc.card == pc.card && npc.cards_behind == pc.cards_behind && npc.attached_tool == pc.attached_tool,
        State::other_slots_same(old, new, side, 0),
        new.hands == old.hands,
        new.decks == old.decks,
        new.discard_piles == old.discard_piles,
    ensures
        cards_kept(old, new),
{
    broadcast use vstd::multiset::group_multiset_axioms;
    assert forall|q: int, j: int| 0 <= q < 2 && 0 <= j < 4 && (q != side || j != 0) implies
        #[trigger] new.in_play_pokemon[q]@[j] == old.in_play_pokemon[q]@[j] by {
        assert(new.in_play_pokemon[q][j] == old.in_play_pokemon[q][j]);
    }
    let pc = old.in_play_pokemon[side][0].unwrap();
    let npc = new.in_play_pokemon[side][0].unwrap();
    assert(State::discarded_cards(npc) == State::discarded_cards(pc));
    assert(slot_cards(new.in_play_pokemon[side]@[0]) == slot_cards(old.in_play_pokemon[side]@[0]));
    assert(in_play_cards(new.in_play_pokemon[0]@) == in_play_cards(old.in_play_pokemon[0]@));
    assert(in_play_cards(new.in_play_pokemon[1]@) == in_play_cards(old.in_play_pokemon[1]@));
}

proof fn lemma_effect_keeps_cards(old: State, mid: State, effect: FnMutation, action: Action)
    requires
        action.actor < 2,
        effect_ready(effect, old, action),
        effect_post(old, mid, effect, action),
    ensures
        cards_kept(old, mid),
{
    broadcast use vstd::multiset::group_multiset_axioms;
    let a = action.actor as int;
    match effect {
        FnMutation::OpponentActiveStatus(status) => {
            let slot = old.in_play_pokemon[1 - a][0];
            if slot is Some && !old.status_blocked(1 - a, slot.unwrap()) {
                lemma_slot_change_keeps_cards(old, mid, 1 - a);
            } else {
                assert(cards_kept(old, mid));
            }
        },
        FnMutation::SelfDiscardEnergy(energy) => {
            if !(old.in_play_pokemon[a][0] is Some && old.in_play_pokemon[a][0].unwrap().attached_energy@.contains(energy)) {
                assert(cards_kept(old, mid));
            } else {
                lemma_slot_change_keeps_cards(old, mid, a);
            }
        },
        FnMutation::SelfDiscardAllEnergy => {
            if old.in_play_pokemon[a][0] is None {
                assert(cards_kept(old, mid));
            } else {
                lemma_slot_change_keeps_cards(old, mid, a);
            }
        },
        FnMutation::SelfCounterattack { damage, turns } => {
            if old.in_play_pokemon[a][0] is None {
                assert(cards_kept(old, mid));
            } else {
                lemma_slot_change_keeps_cards(old, mid, a);
            }
        },
        FnMutation::CoinFlipSwitchInOpponentBench => {
            let (m1, forced) = choose|m1: State, forced: bool| {
                &&& #[trigger] State::heads_consumed_post(old, m1, forced)
                &&& if forced {
                    choice_post(m1, mid, action.actor, (1 - action.actor) as usize)
                } else {
                    mid == m1 || choice_post(m1, mid, action.actor, (1 - action.actor) as usize)
                }
            };
            assert(player_cards(mid, 0) =~= player_cards(old, 0));
            assert(player_cards(mid, 1) =~= player_cards(old, 1));
        },
        _ => {
            assert(player_cards(mid, 0) =~= player_cards(old, 0));
            assert(player_cards(mid, 1) =~= player_cards(old, 1));
        },
    }
}

proof fn lemma_outcome_keeps_cards(old: State, new: State, targets: Seq<(u32, usize)>, effect: FnMutation, action: Action)
    requires
        action.actor < 2,
        effect_ready(effect, old, action),
        forall|k: int| 0 <= k < targets.len() ==> (#[trigger] targets[k]).1 < 4,
        outcome_post(old, new, targets, effect, action),
    ensures
        cards_kept(old, new),
{
    let (mid, damaged) = choose|mid: State, damaged: State| {
        &&& #[trigger] counter_post(mid, damaged, new, targets, action.actor)
        &&& effect_post(old, mid, effect, action)
        &&& damage_step_post(
            mid,
            damaged,
            (action.actor, 0usize),
            opponent_targets(targets, action.actor),
            true,
            attack_title_of(mid, action),
        )
    };
    let recorded = choose|recorded: State| {
        &&& #[trigger] attack_use_post(mid, recorded, action.actor as int, attack_title_of(mid, action))
        &&& damage_all_post(
            recorded,
            damaged,
            slot_type(mid, action.actor as int, 0),
            opponent_targets(targets, action.actor),
            true,
        )
    };
    lemma_effect_keeps_cards(old, mid, effect, action);
    let ot = opponent_targets(targets, action.actor);
    assert forall|k: int| 0 <= k < ot.len() implies (#[trigger] ot[k]).1 < 2 && ot[k].2 < 4 by {
        assert(ot[k] == (targets[k].0, (1 - action.actor) as usize, targets[k].1));
    }
    let attacker_type = slot_type(mid, action.actor as int, 0);
    let chain = choose|chain: Seq<State>| #[trigger] chain.len() == ot.len() + 1
        && chain[0] == recorded
        && chain.last() == damaged
        && forall|k: int| 0 <= k < ot.len() ==> damage_one_post(
            #[trigger] chain[k],
            chain[k + 1],
            attacker_type,
            ot[k].0,
            ot[k].1 as int,
            ot[k].2 as int,
            true,
        );
    lemma_chain_keeps_cards(chain, attacker_type, ot, true, ot.len() as int);
    assert(player_cards(recorded, 0) =~= player_cards(mid, 0));
    assert(player_cards(recorded, 1) =~= player_cards(mid, 1));
    if counter_of(mid, 1 - action.actor) is Some && hits_active(targets) {
        lemma_damage_one_keeps_cards(damaged, new, None, counter_of(mid, 1 - action.actor).unwrap(), action.actor as int, 0, false);
    }
}

proof fn lemma_draw_keeps_cards(mid: State, new: State, actor: int, amount: int)
    requires
        0 <= actor < 2,
        0 <= amount,
        draws_post(mid, new, actor, amount),
    ensures
        cards_kept(mid, new),
{
    broadcast use vstd::multiset::group_multiset_axioms;
    let k = drawable(mid, actor, amount);
    let h = mid.hand(actor);
    let d = mid.deck(actor);
    assert(d =~= d.take(k) + d.skip(k));
    vstd::seq_lib::lemma_multiset_commutative(d.take(k), d.skip(k));
    vstd::seq_lib::lemma_multiset_commutative(h, d.take(k));
    assert(player_cards(new, actor) =~= player_cards(mid, actor));
    assert(player_cards(new, 1 - actor) =~= player_cards(mid, 1 - actor));
}

proof fn lemma_activate_keeps_cards(mid: State, new: State, p: int, i: int)
    requires
        0 <= p < 2,
        0 <= i < 4,
        activate_post(mid, new, p, i),
    ensures
        cards_kept(mid, new),
{
    broadcast use vstd::multiset::group_multiset_axioms;
    assert forall|q: int, j: int| 0 <= q < 2 && 0 <= j < 4 && (q != p || (j != 0 && j != i)) implies
        #[trigger] new.in_play_pokemon[q]@[j] == mid.in_play_pokemon[q]@[j] by {
        assert(new.in_play_pokemon[q][j] == mid.in_play_pokemon[q][j]);
    }
    assert(new.in_play_pokemon[p]@[0] == mid.in_play_pokemon[p]@[i]);
    assert(new.in_play_pokemon[p]@[i] == mid.in_play_pokemon[p]@[0]);
    assert(in_play_cards(new.in_play_pokemon[p]@) =~= in_play_cards(mid.in_play_pokemon[p]@));
    assert(in_play_cards(new.in_play_pokemon[1 - p]@) =~= in_play_cards(mid.in_play_pokemon[1 - p]@));
    assert(player_cards(new, p) =~= player_cards(mid, p));
    assert(player_cards(new, 1 - p) =~= player_cards(mid, 1 - p));
}

proof fn lemma_place_keeps_cards(mid: State, new: State, actor: int, card: Card, i: int)
    requires
        0 <= actor < 2,
        0 <= i < 4,
        mid.hand(actor).contains(card),
        mid.in_play_pokemon[actor][i] is None,
        place_post(mid, new, actor, card, i),
    ensures
        cards_kept(mid, new),
{
    let m2 = choose|m2: State| #[trigger] placed_post(mid, m2, actor, card, i) && State::immunities_enforced(m2, new, actor);
    lemma_placed_keeps_cards(mid, m2, actor, card, i);
    lemma_immunities_keep_cards(m2, new, actor);
}

/// Curing special conditions moves no card.
proof fn lemma_immunities_keep_cards(old: State, new: State, player: int)
    requires
        0 <= player < 2,
        State::immunities_enforced(old, new, player),
    ensures
        cards_kept(old, new),
{
    broadcast use vstd::multiset::group_multiset_axioms;
    assert forall|j: int| 0 <= j < 4 implies
        #[trigger] slot_cards(new.in_play_pokemon[player]@[j]) == slot_cards(old.in_play_pokemon[player]@[j]) by {
        assert(new.in_play_pokemon[player][j] == old.cured_slot(player, old.in_play_pokemon[player][j]));
        if old.in_play_pokemon[player][j] is Some {
            let o = old.in_play_pokemon[player][j].unwrap();
            let n = new.in_play_pokemon[player][j].unwrap();
            assert(State::discarded_cards(n) == State::discarded_cards(o));
        }
    }
    assert(in_play_cards(new.in_play_pokemon[player]@) =~= in_play_cards(old.in_play_pokemon[player]@));
    assert(player_cards(new, player) =~= player_cards(old, player));
    assert(player_cards(new, 1 - player) =~= player_cards(old, 1 - player));
}

proof fn lemma_placed_keeps_cards(mid: State, new: State, actor: int, card: Card, i: int)
    requires
        0 <= actor < 2,
        0 <= i < 4,
        mid.hand(actor).contains(card),
        mid.in_play_pokemon[actor][i] is None,
        placed_post(mid, new, actor, card, i),
    ensures
        cards_kept(mid, new),
{
    broadcast use {vstd::multiset::group_multiset_axioms, vstd::seq_lib::group_to_multiset_ensures};
    let h = mid.hand(actor);
    crate::state::seq_util::lemma_first_index_exists(h, card);
    crate::state::seq_util::lemma_swap_remove_multiset(h, crate::state::seq_util::first_index_of(h, card));
    assert forall|q: int, j: int| 0 <= q < 2 && 0 <= j < 4 && (q != actor || j != i) implies
        #[trigger] new.in_play_pokemon[q]@[j] == mid.in_play_pokemon[q]@[j] by {
        assert(new.in_play_pokemon[q][j] == mid.in_play_pokemon[q][j]);
    }
    let pc = new.in_play_pokemon[actor][i].unwrap();
    assert(State::discarded_cards(pc) =~= Seq::<Card>::empty().push(card));
    assert(slot_cards(new.in_play_pokemon[actor]@[i]) =~= Multiset::<Card>::empty().insert(card));
    assert(slot_cards(mid.in_play_pokemon[actor]@[i]) =~= Multiset::<Card>::empty());
    assert(h.to_multiset().count(card) > 0);
    assert(player_cards(new, actor) =~= player_cards(mid, actor));
    assert(in_play_cards(new.in_play_pokemon[1 - actor]@) =~= in_play_cards(mid.in_play_pokemon[1 - actor]@));
    assert(player_cards(new, 1 - actor) =~= player_cards(mid, 1 - actor));
}

proof fn lemma_end_turn_keeps_cards(mid: State, new: State)
    requires
        State::advance_turn_post(mid, new),
    ensures
        cards_kept(mid, new),
{
    broadcast use vstd::multiset::group_multiset_axioms;
    assert forall|q: int, j: int| 0 <= q < 2 && 0 <= j < 4 implies
        #[trigger] slot_cards(new.in_play_pokemon[q]@[j]) == slot_cards(mid.in_play_pokemon[q]@[j]) by {
        assert(State::slot_maintained(mid.in_play_pokemon[q][j], new.in_play_pokemon[q][j]));
        if mid.in_play_pokemon[q][j] is Some {
            let o = mid.in_play_pokemon[q][j].unwrap();
            let n = new.in_play_pokemon[q][j].unwrap();
            assert(State::discarded_cards(n) == State::discarded_cards(o));
        }
    }
    assert(in_play_cards(new.in_play_pokemon[0]@) =~= in_play_cards(mid.in_play_pokemon[0]@));
    assert(in_play_cards(new.in_play_pokemon[1]@) =~= in_play_cards(mid.in_play_pokemon[1]@));
    assert(player_cards(new, 0) =~= player_cards(mid, 0));
    assert(player_cards(new, 1) =~= player_cards(mid, 1));
}

/// No move creates or loses a card: after any action each player owns the
/// same cards, in hand, deck, discard pile and on the board, as before. A
/// Pokémon placed into a slot that is already occupied would replace the
/// Pokémon there, so placements are into empty slots, as move generation
/// offers them.
pub proof fn law_apply_keeps_cards(old: State, new: State, action: Action)
    requires
        action_ok(old, action),
        apply_post(old, new, action),
        action.action matches SimpleAction::Place(_, idx) ==> old.in_play_pokemon[action.actor as int][idx as int] is None,
    ensures
        player_cards(new, 0) == player_cards(old, 0),
        player_cards(new, 1) == player_cards(old, 1),
{
    broadcast use vstd::multiset::group_multiset_axioms;
    let mid = choose|mid: State| #[trigger] pop_post(old, mid, action) && step_post(mid, new, action);
    assert(cards_kept(old, mid)) by {
        assert(player_cards(mid, 0) =~= player_cards(old, 0));
        assert(player_cards(mid, 1) =~= player_cards(old, 1));
    }
    let actor = action.actor as int;
    match action.action {
        SimpleAction::Attack(idx) => {
            let m = choose|m: Option<Mechanic>| {
                &&& #[trigger] spec_attack_mechanic(mid.in_play_pokemon[actor][0].unwrap().card.id, idx as int, m)
                &&& match attack_plan(mid, actor, idx as int, m) {
                    None => false,
                    Some((targets, effect)) => exists|after: State| {
                        &&& #[trigger] outcome_post(mid, after, targets, effect, action)
                        &&& new == (State { end_turn_pending: true, ..after })
                    },
                }
            };
            let (targets, effect) = attack_plan(mid, actor, idx as int, m).unwrap();
            lemma_plan_targets(mid, actor, idx as int, m);
            let after = choose|after: State| {
                &&& #[trigger] outcome_post(mid, after, targets, effect, action)
                &&& new == (State { end_turn_pending: true, ..after })
            };
            assert(effect_ready(effect, mid, action));
            lemma_outcome_keeps_cards(mid, after, targets, effect, action);
            assert(player_cards(new, 0) =~= player_cards(after, 0));
            assert(player_cards(new, 1) =~= player_cards(after, 1));
        },
        SimpleAction::DrawCard { amount } => lemma_draw_keeps_cards(mid, new, actor, amount as int),
        SimpleAction::Activate { player, in_play_idx } => lemma_activate_keeps_cards(mid, new, player as int, in_play_idx as int),
        SimpleAction::Place(card, idx) => lemma_place_keeps_cards(mid, new, actor, card, idx as int),
        SimpleAction::EndTurn => lemma_end_turn_keeps_cards(mid, new),
    }
}
/// After an attack the turn is over: once the pending choices are made and
/// unless the game is won, ending the turn is the only action offered.
pub proof fn law_attack_ends_turn(old: State, new: State, action: Action)
    requires
        action.action is Attack,
        apply_post(old, new, action),
        new.winner is None,
        new.move_generation_stack@.len() == 0,
    ensures
        possible_actions(new).1 == seq![Action { actor: new.current_player, action: SimpleAction::EndTurn, is_stack: false }],
{
    let mid = choose|mid: State| #[trigger] pop_post(old, mid, action) && step_post(mid, new, action);
    assert(new.end_turn_pending);
}

} // verus!

use vstd::prelude::*;

use crate::deck::{has_basic, Deck};
use crate::effects::TurnEffect;
use crate::models::{spec_name, Card, PlayedCard, StatusCondition};
use crate::state::seq_util::{first_index_of, lemma_first_index, lemma_remove_multiset};
use crate::state::{State, MAX_HAND_SIZE};

verus! {

broadcast use {vstd::seq_lib::group_to_multiset_ensures, vstd::multiset::group_multiset_axioms};

/// Drawing a card never takes a hand past its limit, and moves a card from
/// the deck to the hand without losing or creating any.
pub proof fn law_draw_keeps_limit_and_cards(old: State, new: State, player: int)
    requires
        0 <= player < 2,
        State::draw_post(old, new, player),
        old.hand(player).len() <= MAX_HAND_SIZE,
    ensures
        new.hand(player).len() <= MAX_HAND_SIZE,
        (new.hand(player) + new.deck(player)).to_multiset() == (old.hand(player) + old.deck(player)).to_multiset(),
{
    if !(old.hand_full(player) || old.deck(player).len() == 0) {
        let d = old.deck(player);
        assert(new.hand(player) + new.deck(player) =~= old.hand(player) + seq![d[0]] + d.drop_first());
        assert(seq![d[0]] + d.drop_first() =~= d);
        assert(old.hand(player) + seq![d[0]] + d.drop_first() =~= old.hand(player) + d);
    }
}

/// Cards offered to a hand are either taken into it, in order, or handed
/// back: together they are the offered cards, and a hand within its limit
/// stays within it.
pub proof fn law_add_cards_conserves(old_hand: Seq<Card>, cards: Seq<Card>, new_hand: Seq<Card>, overflow: Seq<Card>)
    requires
        new_hand == old_hand + cards.take(State::accepted_count(old_hand.len() as int, cards.len() as int)),
        overflow == cards.skip(State::accepted_count(old_hand.len() as int, cards.len() as int)),
    ensures
        new_hand + overflow == old_hand + cards,
        old_hand.len() <= MAX_HAND_SIZE ==> new_hand.len() <= MAX_HAND_SIZE,
{
    let k = State::accepted_count(old_hand.len() as int, cards.len() as int);
    assert(cards.take(k) + cards.skip(k) =~= cards);
    assert(new_hand + overflow =~= old_hand + (cards.take(k) + cards.skip(k)));
}

/// Moving a card from the deck to a hand that has room, then back, leaves
/// the hand and the deck holding the same cards as before (the card goes to
/// the bottom of the deck); a hand that held no copy of it is restored
/// exactly.
pub proof fn law_transfer_round_trip(s0: State, s1: State, s2: State, player: int, card: Card)
    requires
        0 <= player < 2,
        !s0.hand_full(player),
        s0.deck(player).contains(card),
        State::deck_to_hand_post(s0, s1, player, card),
        State::hand_to_deck_post(s1, s2, player, card),
    ensures
        s2.hand(player).to_multiset() == s0.hand(player).to_multiset(),
        s2.deck(player).to_multiset() == s0.deck(player).to_multiset(),
        !s0.hand(player).contains(card) ==> s2.hand(player) == s0.hand(player),
        s2.hands[1 - player] == s0.hands[1 - player],
        s2.decks[1 - player] == s0.decks[1 - player],
{
    let h0 = s0.hand(player);
    let d0 = s0.deck(player);
    assert(s2.hand(player).to_multiset() == h0.push(card).to_multiset().remove(card));
    assert(h0.push(card).to_multiset() == h0.to_multiset().insert(card));
    assert(h0.to_multiset().insert(card).remove(card) =~= h0.to_multiset());
    assert(s2.deck(player).to_multiset() == d0.to_multiset().remove(card).insert(card));
    assert(d0.to_multiset().count(card) > 0);
    assert(d0.to_multiset().remove(card).insert(card) =~= d0.to_multiset());
    if !h0.contains(card) {
        let h1 = h0.push(card);
        lemma_first_index(h1, card, h0.len() as int);
        assert(h1.remove(h0.len() as int) =~= h0);
    }
}

/// Two turn ends in a row give the turn back to the same player, two turns
/// later, with a draw queued for each new turn.
pub proof fn law_two_turns(s0: State, s1: State, s2: State)
    requires
        State::advance_turn_post(s0, s1),
        State::advance_turn_post(s1, s2),
    ensures
        s2.current_player == s0.current_player,
        s2.turn_count == s0.turn_count + 2,
        s2.move_generation_stack@.len() == s0.move_generation_stack@.len() + 2,
{
}

/// A stadium put into play is the active stadium, and the one reported by
/// name; the one it replaced is handed back.
pub proof fn law_stadium_set_then_named(s0: State, s1: State, stadium: Card, replaced: Option<Card>)
    requires
        replaced == s0.active_stadium,
        s1 == (State { active_stadium: Some(stadium), ..s0 }),
    ensures
        s1.active_stadium is Some,
        spec_name(s1.active_stadium.unwrap().id) == spec_name(stadium.id),
        replaced == s0.active_stadium,
{
}

/// A forced heads scheduled then used up is found, and the effects of every
/// turn are as before.
pub proof fn law_heads_set_then_consumed(s0: State, s1: State, s2: State, found: bool)
    requires
        State::heads_set_post(s0, s1),
        State::heads_consumed_post(s1, s2, found),
    ensures
        found,
        forall|t: int| #[trigger] s2.effects_at(t).to_multiset() == s0.effects_at(t).to_multiset(),
{
    let now = s0.turn_count as int;
    assert(s1.effects_at(now) == s0.effects_at(now).push(TurnEffect::ForceFirstHeads));
    assert(s1.effects_at(now)[s0.effects_at(now).len() as int] == TurnEffect::ForceFirstHeads);
    assert(s1.turn_count == s0.turn_count);
    assert forall|t: int| #[trigger] s2.effects_at(t).to_multiset() == s0.effects_at(t).to_multiset() by {
        if t == now {
            let e1 = s1.effects_at(t);
            let e0 = s0.effects_at(t);
            let i = first_index_of(e1, TurnEffect::ForceFirstHeads);
            crate::state::seq_util::lemma_first_index_exists(e1, TurnEffect::ForceFirstHeads);
            lemma_remove_multiset(e1, i);
            assert(e1.to_multiset() == e0.to_multiset().insert(TurnEffect::ForceFirstHeads));
            assert(e0.to_multiset().insert(TurnEffect::ForceFirstHeads).remove(TurnEffect::ForceFirstHeads)
                =~= e0.to_multiset());
        } else {
            assert(s1.effects_at(t) == s0.effects_at(t));
        }
    }
}

/// Players start with five cards, one of which is a basic Pokémon when
/// their deck holds one, and the rest of the deck stays to be drawn.
pub proof fn law_opening_hands(state: State, deck_a: Deck, deck_b: Deck, player: int)
    requires
        state.is_opening(deck_a, deck_b),
        player == 0 || player == 1,
        (if player == 0 { deck_a } else { deck_b }).cards@.len() >= 5,
    ensures
        state.hand(player).len() == 5,
        state.deck(player).len() == (if player == 0 { deck_a } else { deck_b }).cards@.len() - 5,
        has_basic((if player == 0 { deck_a } else { deck_b }).cards@) ==> has_basic(state.hand(player)),
{
}

/// Whether at most one of the special conditions that replace each other
/// (asleep, paralyzed, confused) is set.
pub open spec fn rotation_exclusive(pc: PlayedCard) -> bool {
    &&& !(pc.asleep && pc.paralyzed)
    &&& !(pc.asleep && pc.confused)
    &&& !(pc.paralyzed && pc.confused)
}

/// Giving a Pokémon a special condition never leaves it with two of asleep,
/// paralyzed and confused at once, and the condition given is set.
pub proof fn law_status_exclusive(pc: PlayedCard, status: StatusCondition)
    requires
        rotation_exclusive(pc),
    ensures
        rotation_exclusive(pc.with_status(status)),
        pc.with_status(status).has_status(status),
{
}

/// The occupied slots of a side are the active slot, when occupied,
/// followed by the occupied bench slots: listing the bench is listing the
/// Pokémon in play without the active one.
pub proof fn law_bench_is_in_play_without_active(slots: Seq<Option<PlayedCard>>)
    requires
        slots.len() == 4,
    ensures
        State::occupied_slots(slots, 0, 4) == (if slots[0] is Some { seq![0int] } else { Seq::<int>::empty() })
            + State::occupied_slots(slots, 1, 4),
{
    lemma_occupied_split(slots, 4);
}

proof fn lemma_occupied_split(slots: Seq<Option<PlayedCard>>, hi: int)
    requires
        1 <= hi <= 4,
    ensures
        State::occupied_slots(slots, 0, hi) == (if slots[0] is Some { seq![0int] } else { Seq::<int>::empty() })
            + State::occupied_slots(slots, 1, hi),
    decreases hi,
{
    let head = if slots[0] is Some { seq![0int] } else { Seq::<int>::empty() };
    if hi == 1 {
        assert(State::occupied_slots(slots, 0, 0) =~= Seq::<int>::empty());
        assert(State::occupied_slots(slots, 1, 1) =~= Seq::<int>::empty());
        assert(State::occupied_slots(slots, 0, 1) =~= head + State::occupied_slots(slots, 1, 1));
    } else {
        lemma_occupied_split(slots, hi - 1);
        if slots[hi - 1] is Some {
            assert(State::occupied_slots(slots, 0, hi) =~= head + State::occupied_slots(slots, 1, hi));
        }
    }
}

} // verus!

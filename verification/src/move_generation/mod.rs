mod attacks;
pub mod bench_requirement;

use vstd::prelude::*;

use crate::actions::{Action, SimpleAction};
use crate::deck::{is_basic, spec_is_basic};
use crate::models::{Card, PlayedCard};
use crate::state::State;

pub use attacks::{attack_actions, attack_restricted, attack_usable, cannot_attack, generate_attack_actions, usable_attacks};

verus! {

/// The indices in `lo..hi` of the empty slots of `slots`, in order.
pub open spec fn empty_slots(slots: Seq<Option<PlayedCard>>, lo: int, hi: int) -> Seq<int>
    decreases hi - lo,
{
    if hi <= lo {
        Seq::empty()
    } else {
        let rest = empty_slots(slots, lo, hi - 1);
        if slots[hi - 1] is None {
            rest.push(hi - 1)
        } else {
            rest
        }
    }
}

/// The placements of `card` into each of the slots `empties`.
pub open spec fn placements(card: Card, empties: Seq<int>) -> Seq<SimpleAction> {
    empties.map_values(|i: int| SimpleAction::Place(card, i as usize))
}

/// The placements of each basic Pokémon of `hand`, in hand order, into each
/// of the slots `empties`.
pub open spec fn place_actions(hand: Seq<Card>, empties: Seq<int>) -> Seq<SimpleAction>
    decreases hand.len(),
{
    if hand.len() == 0 {
        Seq::empty()
    } else {
        let rest = place_actions(hand.drop_last(), empties);
        if spec_is_basic(hand.last()) {
            rest + placements(hand.last(), empties)
        } else {
            rest
        }
    }
}

/// The moves `moves`, each made by `actor`.
pub open spec fn as_actions(actor: usize, moves: Seq<SimpleAction>, is_stack: bool) -> Seq<Action> {
    moves.map_values(|a: SimpleAction| Action { actor, action: a, is_stack })
}

/// Who must act in `state`, and the actions open to them: none once the game
/// is won; the choices on top of the stack of pending choices while there are
/// any; only the end of the turn after an attack; else the current player's
/// attacks, placements of basic Pokémon and the end of the turn.
pub open spec fn possible_actions(state: State) -> (usize, Seq<Action>) {
    let cp = state.current_player;
    if state.winner is Some {
        (cp, Seq::empty())
    } else if state.move_generation_stack@.len() > 0 {
        let top = state.move_generation_stack@.last();
        (top.0, as_actions(top.0, top.1@, true))
    } else if state.end_turn_pending {
        (cp, seq![Action { actor: cp, action: SimpleAction::EndTurn, is_stack: false }])
    } else {
        let empties = empty_slots(state.in_play_pokemon[cp as int]@, 0, 4);
        let moves = attack_actions(state) + place_actions(state.hand(cp as int), empties)
            + seq![SimpleAction::EndTurn];
        (cp, as_actions(cp, moves, false))
    }
}

/// Appends `Action { actor, action, is_stack }` for each move of `moves`.
fn push_actions(out: &mut Vec<Action>, actor: usize, moves: &Vec<SimpleAction>, is_stack: bool)
    ensures
        final(out)@ == old(out)@ + as_actions(actor, moves@, is_stack),
{
    let ghost start = out@;
    let mut i: usize = 0;
    while i < moves.len()
        invariant
            i <= moves@.len(),
            out@ == start + as_actions(actor, moves@.take(i as int), is_stack),
        decreases moves@.len() - i,
    {
        out.push(Action { actor, action: moves[i], is_stack });
        assert(as_actions(actor, moves@.take(i + 1), is_stack)
            =~= as_actions(actor, moves@.take(i as int), is_stack).push(Action { actor, action: moves@[i as int], is_stack }));
        i = i + 1;
    }
    assert(moves@.take(moves@.len() as int) == moves@);
}

/// The placements of each basic Pokémon of `hand` into the empty slots of
/// `slots`.
fn generate_place_actions(hand: &Vec<Card>, slots: &[Option<PlayedCard>; 4]) -> (r: Vec<SimpleAction>)
    ensures
        r@ == place_actions(hand@, empty_slots(slots@, 0, 4)),
{
    let ghost empties = empty_slots(slots@, 0, 4);
    let mut out: Vec<SimpleAction> = Vec::new();
    let mut h: usize = 0;
    while h < hand.len()
        invariant
            h <= hand@.len(),
            empties == empty_slots(slots@, 0, 4),
            out@ == place_actions(hand@.take(h as int), empties),
        decreases hand@.len() - h,
    {
        let card = hand[h];
        let ghost prefix = out@;
        assert(hand@.take(h + 1).drop_last() == hand@.take(h as int));
        assert(hand@.take(h + 1).last() == card);
        if is_basic(&card) {
            let ghost before = out@;
            let mut i: usize = 0;
            while i < 4
                invariant
                    i <= 4,
                    before == prefix,
                    out@ == before + placements(card, empty_slots(slots@, 0, i as int)),
                decreases 4 - i,
            {
                if slots[i].is_none() {
                    out.push(SimpleAction::Place(card, i));
                    assert(placements(card, empty_slots(slots@, 0, i + 1))
                        =~= placements(card, empty_slots(slots@, 0, i as int)).push(SimpleAction::Place(card, i)));
                }
                i = i + 1;
            }
            assert(out@ == prefix + placements(card, empties));
        }
        assert(place_actions(hand@.take(h + 1), empties) == if spec_is_basic(card) {
            place_actions(hand@.take(h as int), empties) + placements(card, empties)
        } else {
            place_actions(hand@.take(h as int), empties)
        });
        h = h + 1;
    }
    assert(hand@.take(hand@.len() as int) == hand@);
    out
}

/// Who must act in `state` and the actions open to them.
pub fn generate_possible_actions(state: &State) -> (r: (usize, Vec<Action>))
    requires
        state.current_player < 2,
    ensures
        r.0 == possible_actions(*state).0,
        r.1@ == possible_actions(*state).1,
{
    let cp = state.current_player;
    let mut out: Vec<Action> = Vec::new();
    if state.winner.is_some() {
        return (cp, out);
    }
    let len = state.move_generation_stack.len();
    if len > 0 {
        let top = &state.move_generation_stack[len - 1];
        push_actions(&mut out, top.0, &top.1, true);
        return (top.0, out);
    }
    if state.end_turn_pending {
        out.push(Action { actor: cp, action: SimpleAction::EndTurn, is_stack: false });
        return (cp, out);
    }
    let mut moves = generate_attack_actions(state);
    let mut places = generate_place_actions(&state.hands[cp], &state.in_play_pokemon[cp]);
    moves.append(&mut places);
    moves.push(SimpleAction::EndTurn);
    push_actions(&mut out, cp, &moves, false);
    (cp, out)
}

} // verus!

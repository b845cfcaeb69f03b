use vstd::prelude::*;

use crate::models::{spec_energy_type, spec_is_ex, spec_weakness, EnergyType, PlayedCard};
use crate::state::{GameOutcome, State};

verus! {

/// Extra damage an attack from the Active Spot does to a defending Active
/// Pokémon weak to the attacker's type.
pub const WEAKNESS_BONUS: u32 = 20;

/// Points that win the game.
pub const POINTS_TO_WIN: u8 = 3;

/// Damage that a hit of `damage` deals to `pc` at slot `idx`, from an attacker
/// of type `attacker_type`: weakness adds its bonus when an attack from the
/// Active Spot hits a defending Active Pokémon.
pub open spec fn effective_damage(
    pc: PlayedCard,
    attacker_type: Option<EnergyType>,
    damage: u32,
    idx: int,
    from_active_attack: bool,
) -> int {
    damage as int + if idx == 0 && from_active_attack && attacker_type is Some
        && spec_weakness(pc.card.id) == attacker_type {
        WEAKNESS_BONUS as int
    } else {
        0
    }
}

/// HP left after taking `amount` damage (never below zero).
pub open spec fn hp_after(remaining: u32, amount: int) -> u32 {
    if remaining as int <= amount { 0 } else { (remaining as int - amount) as u32 }
}

/// Points after adding `k` (capped at the largest `u8`).
pub open spec fn add_points(points: u8, k: u8) -> u8 {
    if points as int + k as int > 255 { 255 } else { (points + k) as u8 }
}

/// Whether `new` is `old` after one hit of `damage` on slot (`player`, `idx`)
/// from an attacker of type `attacker_type`: nothing happens to an empty
/// slot; a Pokémon that keeps HP just loses it; a Pokémon brought to 0 HP is
/// knocked out: its opponent scores its knockout points, it is discarded from
/// play, an emptied Active Spot triggers a promotion choice (or the opponent
/// wins when the bench is empty), and the opponent wins on reaching the
/// winning points.
pub open spec fn damage_one_post(
    old: State,
    new: State,
    attacker_type: Option<EnergyType>,
    damage: u32,
    player: int,
    idx: int,
    from_active_attack: bool,
) -> bool {
    let slot = old.in_play_pokemon[player][idx];
    if slot is None {
        new == old
    } else {
        let pc = slot.unwrap();
        let hp = hp_after(pc.remaining_hp, effective_damage(pc, attacker_type, damage, idx, from_active_attack));
        let opponent = 1 - player;
        if hp > 0 {
            &&& new.in_play_pokemon[player][idx] == Some(PlayedCard { remaining_hp: hp, ..pc })
            &&& State::other_slots_same(old, new, player, idx)
            &&& new == (State { in_play_pokemon: new.in_play_pokemon, ..old })
        } else {
            knock_out_post(old, new, player, idx, from_active_attack)
        }
    }
}

/// Whether `new` is `old` after the Pokémon at slot (`player`, `idx`) is
/// knocked out: its opponent scores its knockout points, it is discarded from
/// play, an emptied Active Spot triggers a promotion choice (or the opponent
/// wins when the bench is empty), and the opponent wins on reaching the
/// winning points.
pub open spec fn knock_out_post(old: State, new: State, player: int, idx: int, from_active_attack: bool) -> bool {
    let pc = old.in_play_pokemon[player][idx].unwrap();
    let opponent = 1 - player;
    let points = add_points(old.points[opponent], pc.card.knockout_points_spec());
    let bench = State::occupied_slots(old.in_play_pokemon[player]@, 1, 4);
    let loses = points >= POINTS_TO_WIN || (idx == 0 && bench.len() == 0);
    let promotes = idx == 0 && bench.len() > 0;
    &&& new.in_play_pokemon[player][idx] is None
    &&& State::other_slots_same(old, new, player, idx)
    &&& new.points[opponent] == points
    &&& new.points[player] == old.points[player]
    &&& new.discard_piles[player]@ == old.discard_piles[player]@ + State::discarded_cards(pc)
    &&& new.discard_piles[opponent] == old.discard_piles[opponent]
    &&& new.discard_energies[player]@ == old.discard_energies[player]@ + pc.attached_energy@
    &&& new.discard_energies[opponent] == old.discard_energies[opponent]
    &&& new.winner == if loses { Some(GameOutcome::Win(opponent as usize)) } else { old.winner }
    &&& new.knocked_out_by_opponent_attack_this_turn == (old.knocked_out_by_opponent_attack_this_turn
        || from_active_attack)
    &&& if promotes {
        &&& new.move_generation_stack@.len() == old.move_generation_stack@.len() + 1
        &&& new.move_generation_stack@[0].0 == player
        &&& new.move_generation_stack@[0].1@ == State::activations(player as usize, bench)
        &&& new.move_generation_stack@.drop_first() == old.move_generation_stack@
    } else {
        new.move_generation_stack == old.move_generation_stack
    }
    &&& new == (State {
        winner: new.winner,
        points: new.points,
        discard_piles: new.discard_piles,
        discard_energies: new.discard_energies,
        in_play_pokemon: new.in_play_pokemon,
        knocked_out_by_opponent_attack_this_turn: new.knocked_out_by_opponent_attack_this_turn,
        move_generation_stack: new.move_generation_stack,
        ..old
    })
}

/// Knocking out a Pokémon scores for its opponent: 2 points for a Pokémon
/// ex, 1 for any other (the count stops at 255); the knocked-out player's
/// points do not change.
pub proof fn law_knockout_scores(old: State, new: State, player: int, idx: int, from_active_attack: bool)
    requires
        0 <= player < 2,
        0 <= idx < 4,
        old.in_play_pokemon[player][idx] is Some,
        knock_out_post(old, new, player, idx, from_active_attack),
    ensures
        ({
            let worth: int = if spec_is_ex(old.in_play_pokemon[player][idx].unwrap().card.id) { 2 } else { 1 };
            &&& old.points[1 - player] + worth <= 255 ==> new.points[1 - player] == old.points[1 - player] + worth
            &&& old.points[1 - player] + worth > 255 ==> new.points[1 - player] == 255
        }),
        new.points[player] == old.points[player],
{
}

/// Knocks out the Pokémon at slot (`player`, `idx`).
pub fn knock_out(state: &mut State, player: usize, idx: usize, from_active_attack: bool)
    requires
        player < 2,
        idx < 4,
        old(state).in_play_pokemon[player as int][idx as int] is Some,
    ensures
        knock_out_post(*old(state), *final(state), player as int, idx as int, from_active_attack),
{
    let ko_points = state.in_play_pokemon[player][idx].as_ref().unwrap().card.get_knockout_points();
    let opponent = 1 - player;
    state.discard_from_play(player, idx);
    let current = state.points[opponent];
    state.points[opponent] = if current as u16 + ko_points as u16 > 255 { 255 } else { current + ko_points };
    if from_active_attack {
        state.knocked_out_by_opponent_attack_this_turn = true;
    }
    if idx == 0 {
        let ghost before_promotion = *state;
        assert(State::occupied_slots(before_promotion.in_play_pokemon[player as int]@, 1, 4)
            == State::occupied_slots(old(state).in_play_pokemon[player as int]@, 1, 4)) by {
            State::lemma_occupied_slots_ignore(old(state).in_play_pokemon[player as int]@,
                before_promotion.in_play_pokemon[player as int]@, 1, 4);
        }
        state.trigger_promotion_or_declare_winner(player);
    }
    if state.points[opponent] >= POINTS_TO_WIN {
        state.winner = Some(GameOutcome::Win(opponent));
    }
}

/// Deals one hit of `damage` to slot (`player`, `idx`) and resolves a
/// knockout.
pub fn damage_one(
    state: &mut State,
    attacker_type: Option<EnergyType>,
    damage: u32,
    player: usize,
    idx: usize,
    from_active_attack: bool,
)
    requires
        player < 2,
        idx < 4,
    ensures
        damage_one_post(*old(state), *final(state), attacker_type, damage, player as int, idx as int, from_active_attack),
{
    let remaining = match &state.in_play_pokemon[player][idx] {
        Some(p) => p.remaining_hp as u64,
        None => {
            return;
        },
    };
    let weak = match &state.in_play_pokemon[player][idx] {
        Some(p) => idx == 0 && from_active_attack && attacker_type.is_some()
            && p.card.get_weakness() == attacker_type,
        None => false,
    };
    let amount: u64 = if weak { damage as u64 + WEAKNESS_BONUS as u64 } else { damage as u64 };
    if remaining > amount {
        let mut pokemon = state.in_play_pokemon[player][idx].take().unwrap();
        pokemon.remaining_hp = (remaining - amount) as u32;
        state.in_play_pokemon[player][idx] = Some(pokemon);
        return;
    }
    knock_out(state, player, idx, from_active_attack);
}

/// Whether `new` is `old` after the hits `targets`, each
/// (damage, player, slot), are dealt in order.
pub open spec fn damage_all_post(
    old: State,
    new: State,
    attacker_type: Option<EnergyType>,
    targets: Seq<(u32, usize, usize)>,
    from_active_attack: bool,
) -> bool {
    exists|chain: Seq<State>| #[trigger] chain.len() == targets.len() + 1
        && chain[0] == old
        && chain.last() == new
        && forall|k: int| 0 <= k < targets.len() ==> damage_one_post(
            #[trigger] chain[k],
            chain[k + 1],
            attacker_type,
            targets[k].0,
            targets[k].1 as int,
            targets[k].2 as int,
            from_active_attack,
        )
}

/// The energy type of the Pokémon in slot (`player`, `idx`), if there is one.
pub open spec fn slot_type(state: State, player: int, idx: int) -> Option<EnergyType> {
    match state.in_play_pokemon[player][idx] {
        Some(pc) => spec_energy_type(pc.card.id),
        None => None,
    }
}

/// The title of the attack whose uses are counted over the game.
pub open spec fn counted_attack_title() -> Seq<char> {
    "Sweets Relay"@
}

/// Whether `new` is `old` after `player` uses the attack titled `name`, if
/// any: a use of the counted attack is recorded as its last use, on the
/// current turn, and counted among its uses in the game (the count stops at
/// the largest `u8`); any other attack, or none, changes nothing.
pub open spec fn attack_use_post(old: State, new: State, player: int, name: Option<Seq<char>>) -> bool {
    if name == Some(counted_attack_title()) {
        &&& new.sweets_relay_last_used_turn[player] == Some(old.turn_count)
        &&& new.sweets_relay_last_used_turn[1 - player] == old.sweets_relay_last_used_turn[1 - player]
        &&& new.sweets_relay_uses_per_game[player] == add_points(old.sweets_relay_uses_per_game[player], 1)
        &&& new.sweets_relay_uses_per_game[1 - player] == old.sweets_relay_uses_per_game[1 - player]
        &&& new == (State {
            sweets_relay_last_used_turn: new.sweets_relay_last_used_turn,
            sweets_relay_uses_per_game: new.sweets_relay_uses_per_game,
            ..old
        })
    } else {
        new == old
    }
}

/// Whether `new` is `old` after the damage step of an attack named `name`
/// from the Pokémon at `attacker`: the use of the attack is recorded, then
/// the hits `targets`, each (damage, player, slot), are dealt in order.
pub open spec fn damage_step_post(
    old: State,
    new: State,
    attacker: (usize, usize),
    targets: Seq<(u32, usize, usize)>,
    from_active_attack: bool,
    name: Option<Seq<char>>,
) -> bool {
    exists|recorded: State| {
        &&& #[trigger] attack_use_post(old, recorded, attacker.0 as int, name)
        &&& damage_all_post(
            recorded,
            new,
            slot_type(old, attacker.0 as int, attacker.1 as int),
            targets,
            from_active_attack,
        )
    }
}

/// Records that `player` used the attack titled `name`, if it is the
/// attack whose uses are counted.
fn record_attack_use(state: &mut State, player: usize, name: &Option<String>)
    requires
        player < 2,
    ensures
        attack_use_post(
            *old(state),
            *final(state),
            player as int,
            match name {
                Some(n) => Some(n@),
                None => None,
            },
        ),
{
    if let Some(n) = name {
        let counted_title = "Sweets Relay".to_owned();
        proof {
            reveal_strlit("Sweets Relay");
        }
        if n.eq(&counted_title) {
            state.sweets_relay_last_used_turn[player] = Some(state.turn_count);
            let uses = state.sweets_relay_uses_per_game[player];
            state.sweets_relay_uses_per_game[player] = if uses == 255 { 255 } else { uses + 1 };
        }
    }
}

/// Deals damage from the Pokémon at `attacker` to each target
/// (damage, player, slot) in order, resolving knockouts as they happen,
/// after recording the use of the attack titled `attack_name`, if any.
pub fn handle_damage(
    state: &mut State,
    attacker: (usize, usize),
    targets: &Vec<(u32, usize, usize)>,
    is_from_active_attack: bool,
    attack_name: &Option<String>,
)
    requires
        attacker.0 < 2,
        attacker.1 < 4,
        forall|k: int| 0 <= k < targets@.len() ==> (#[trigger] targets@[k]).1 < 2 && targets@[k].2 < 4,
    ensures
        damage_step_post(
            *old(state),
            *final(state),
            attacker,
            targets@,
            is_from_active_attack,
            match attack_name {
                Some(n) => Some(n@),
                None => None,
            },
        ),
{
    record_attack_use(state, attacker.0, attack_name);
    let ghost recorded = *state;
    assert(slot_type(recorded, attacker.0 as int, attacker.1 as int) == slot_type(*old(state), attacker.0 as int, attacker.1 as int));
    damage_targets(state, attacker, targets, is_from_active_attack);
}

/// Deals damage from the Pokémon at `attacker` to each target
/// (damage, player, slot) in order, resolving knockouts as they happen.
fn damage_targets(
    state: &mut State,
    attacker: (usize, usize),
    targets: &Vec<(u32, usize, usize)>,
    is_from_active_attack: bool,
)
    requires
        attacker.0 < 2,
        attacker.1 < 4,
        forall|k: int| 0 <= k < targets@.len() ==> (#[trigger] targets@[k]).1 < 2 && targets@[k].2 < 4,
    ensures
        damage_all_post(
            *old(state),
            *final(state),
            slot_type(*old(state), attacker.0 as int, attacker.1 as int),
            targets@,
            is_from_active_attack,
        ),
{
    let attacker_type = match &state.in_play_pokemon[attacker.0][attacker.1] {
        Some(p) => p.get_energy_type(),
        None => None,
    };
    let ghost mut chain: Seq<State> = seq![*old(state)];
    let mut k: usize = 0;
    while k < targets.len()
        invariant
            k <= targets@.len(),
            forall|j: int| 0 <= j < targets@.len() ==> (#[trigger] targets@[j]).1 < 2 && targets@[j].2 < 4,
            chain.len() == k + 1,
            chain[0] == *old(state),
            chain.last() == *state,
            forall|j: int| 0 <= j < k ==> damage_one_post(
                #[trigger] chain[j],
                chain[j + 1],
                attacker_type,
                targets@[j].0,
                targets@[j].1 as int,
                targets@[j].2 as int,
                is_from_active_attack,
            ),
        decreases targets@.len() - k,
    {
        let (damage, player, idx) = targets[k];
        let ghost before = *state;
        damage_one(state, attacker_type, damage, player, idx, is_from_active_attack);
        proof {
            let old_chain = chain;
            chain = chain.push(*state);
            assert forall|j: int| 0 <= j < k + 1 implies damage_one_post(
                #[trigger] chain[j],
                chain[j + 1],
                attacker_type,
                targets@[j].0,
                targets@[j].1 as int,
                targets@[j].2 as int,
                is_from_active_attack,
            ) by {
                if j < k {
                    assert(chain[j] == old_chain[j]);
                    assert(chain[j + 1] == old_chain[j + 1]);
                } else {
                    assert(chain[j] == before);
                }
            }
        }
        k = k + 1;
    }
    assert(chain.len() == targets@.len() + 1);
}

} // verus!

use vstd::prelude::*;

use crate::actions::apply_action_helpers::{damage_one, damage_one_post, damage_step_post, handle_damage};
use crate::models::{spec_attack_title, spec_num_attacks};
use crate::actions::{Action, SimpleAction};
use crate::models::{EnergyType, PlayedCard, StatusCondition};
use crate::state::seq_util::swap_remove_first;
use crate::effects::CardEffect;
use crate::rng::gen_index;
use crate::state::State;

use rand::rngs::StdRng;

// Outcomes of attacks: each possible outcome has a probability and a
// mutation of the state. The helpers below share the common code that
// applies to all attacks: an additional effect, then damage to the
// opponent's Pokémon, resolving knockouts.

verus! {

/// A probability as a fraction `(numerator, denominator)`.
pub type Probability = (u32, u32);

/// The probabilities of the outcomes of an action.
pub type Probabilities = Vec<Probability>;

/// An effect that an attack has besides its damage.
#[derive(Debug, Clone, Copy, PartialEq, Eq, Structural)]
pub enum FnMutation {
    /// No additional effect.
    NoEffect,
    /// The opponent's active Pokémon gets a special condition.
    OpponentActiveStatus(StatusCondition),
    /// The attacker's player chooses a benched Pokémon to switch with the
    /// attacker.
    SwitchSelfWithBench,
    /// The attacker discards one energy of this type, if it has one.
    SelfDiscardEnergy(EnergyType),
    /// The attacker discards all of its energies.
    SelfDiscardAllEnergy,
    /// The attacker carries, for `turns` more turn ends, an effect that
    /// deals `damage` to any Pokémon that damages it with an attack.
    SelfCounterattack { damage: u32, turns: u8 },
    /// A coin is flipped (a forced heads of the turn is used up first); on
    /// heads the attacker's player chooses one of the opponent's benched
    /// Pokémon to switch in to the Active Spot.
    CoinFlipSwitchInOpponentBench,
}

/// A change of state: an additional effect, then damage to the opponent's
/// Pokémon, each target given as (damage, slot).
#[derive(Debug, Clone, PartialEq)]
pub struct Mutation {
    pub targets: Vec<(u32, usize)>,
    pub additional_effect: FnMutation,
}

/// The mutations of the outcomes of an action, in the order of their
/// probabilities.
pub type Mutations = Vec<Mutation>;

/// Certainty.
pub open spec fn certain() -> Probability {
    (1, 1)
}

/// A deterministic outcome that only runs `effect`, with no damage.
pub fn doutcome(effect: FnMutation) -> (r: (Probabilities, Mutations))
    ensures
        r.0@ == seq![certain()],
        r.1@.len() == 1,
        r.1@[0].targets@.len() == 0,
        r.1@[0].additional_effect == effect,
{
    doutcome_from_mutation(Mutation { targets: Vec::new(), additional_effect: effect })
}

/// A deterministic outcome: `mutation` happens with probability one.
pub fn doutcome_from_mutation(mutation: Mutation) -> (r: (Probabilities, Mutations))
    ensures
        r.0@ == seq![certain()],
        r.1@ == seq![mutation],
{
    let mut probabilities: Probabilities = Vec::new();
    probabilities.push((1, 1));
    let mut mutations: Mutations = Vec::new();
    mutations.push(mutation);
    (probabilities, mutations)
}

/// A deterministic outcome of `damage` to the opponent's active Pokémon.
pub fn active_damage_doutcome(damage: u32) -> (r: (Probabilities, Mutations))
    ensures
        r.0@ == seq![certain()],
        r.1@.len() == 1,
        r.1@[0].targets@ == seq![(damage, 0usize)],
        r.1@[0].additional_effect == FnMutation::NoEffect,
{
    let mut targets: Vec<(u32, usize)> = Vec::new();
    targets.push((damage, 0));
    damage_doutcome(targets)
}

/// A deterministic outcome of damage to the opponent's Pokémon at the given
/// slots.
pub fn damage_doutcome(targets: Vec<(u32, usize)>) -> (r: (Probabilities, Mutations))
    ensures
        r.0@ == seq![certain()],
        r.1@.len() == 1,
        r.1@[0].targets@ == targets@,
        r.1@[0].additional_effect == FnMutation::NoEffect,
{
    doutcome_from_mutation(damage_mutation(targets))
}

/// A deterministic outcome of an additional effect, then `damage` to the
/// opponent's active Pokémon.
pub fn active_damage_effect_doutcome(damage: u32, additional_effect: FnMutation) -> (r: (Probabilities, Mutations))
    ensures
        r.0@ == seq![certain()],
        r.1@.len() == 1,
        r.1@[0].targets@ == seq![(damage, 0usize)],
        r.1@[0].additional_effect == additional_effect,
{
    doutcome_from_mutation(active_damage_effect_mutation(damage, additional_effect))
}

/// A deterministic outcome of an additional effect, then damage to the
/// opponent's Pokémon at the given slots.
pub fn damage_effect_doutcome(targets: Vec<(u32, usize)>, additional_effect: FnMutation) -> (r: (Probabilities, Mutations))
    ensures
        r.0@ == seq![certain()],
        r.1@.len() == 1,
        r.1@[0].targets@ == targets@,
        r.1@[0].additional_effect == additional_effect,
{
    doutcome_from_mutation(damage_effect_mutation(targets, additional_effect))
}

/// `damage` to the opponent's active Pokémon.
pub fn active_damage_mutation(damage: u32) -> (r: Mutation)
    ensures
        r.targets@ == seq![(damage, 0usize)],
        r.additional_effect == FnMutation::NoEffect,
{
    let mut targets: Vec<(u32, usize)> = Vec::new();
    targets.push((damage, 0));
    damage_mutation(targets)
}

/// Damage to the opponent's Pokémon at the given slots.
pub fn damage_mutation(targets: Vec<(u32, usize)>) -> (r: Mutation)
    ensures
        r.targets@ == targets@,
        r.additional_effect == FnMutation::NoEffect,
{
    damage_effect_mutation(targets, FnMutation::NoEffect)
}

/// An additional effect, then `damage` to the opponent's active Pokémon.
pub fn active_damage_effect_mutation(damage: u32, additional_effect: FnMutation) -> (r: Mutation)
    ensures
        r.targets@ == seq![(damage, 0usize)],
        r.additional_effect == additional_effect,
{
    let mut targets: Vec<(u32, usize)> = Vec::new();
    targets.push((damage, 0));
    damage_effect_mutation(targets, additional_effect)
}

/// An additional effect, then damage to the opponent's Pokémon at the given
/// slots.
pub fn damage_effect_mutation(targets: Vec<(u32, usize)>, additional_effect: FnMutation) -> (r: Mutation)
    ensures
        r.targets@ == targets@,
        r.additional_effect == additional_effect,
{
    Mutation { targets, additional_effect }
}

/// The effect that inflicts `status` on the opponent's active Pokémon.
pub fn build_status_effect(status: StatusCondition) -> (r: FnMutation)
    ensures
        r == FnMutation::OpponentActiveStatus(status),
{
    FnMutation::OpponentActiveStatus(status)
}

/// The opponent of `player`.
pub open spec fn opponent_of(player: usize) -> int {
    1 - player
}

/// What an effect requires of the state it runs on.
pub open spec fn effect_ready(effect: FnMutation, state: State, action: Action) -> bool {
    match effect {
        FnMutation::OpponentActiveStatus(_) => state.in_play_pokemon[opponent_of(action.actor)][0] is Some,
        _ => true,
    }
}

/// Whether `new` is `old` after the opponent's active Pokémon is given
/// `status`, as `State::apply_status_condition` gives it.
pub open spec fn status_effect_post(old: State, new: State, status: StatusCondition, actor: usize) -> bool {
    State::status_condition_post(old, new, opponent_of(actor), 0, status)
}

/// Whether `new` is `old` after `chooser` is offered to move one of the
/// benched Pokémon of `side` into its Active Spot (nothing happens when that
/// bench is empty): the choice goes on top of the stack of pending choices.
pub open spec fn choice_post(old: State, new: State, chooser: usize, side: usize) -> bool {
    let bench = State::occupied_slots(old.in_play_pokemon[side as int]@, 1, 4);
    if bench.len() == 0 {
        new == old
    } else {
        &&& new.move_generation_stack@.drop_last() == old.move_generation_stack@
        &&& new.move_generation_stack@.len() == old.move_generation_stack@.len() + 1
        &&& new.move_generation_stack@.last().0 == chooser
        &&& new.move_generation_stack@.last().1@ == State::activations(side, bench)
        &&& new == (State { move_generation_stack: new.move_generation_stack, ..old })
    }
}

/// Whether `new` is `old` after `actor` is offered to switch its active
/// Pokémon with one of its benched ones (nothing happens with an empty bench).
pub open spec fn switch_effect_post(old: State, new: State, actor: usize) -> bool {
    choice_post(old, new, actor, actor)
}

/// Whether `new` is `old` after the attacker of `actor` takes on a
/// counterattack effect of `damage` lasting `turns` more turn ends (nothing
/// happens without an active Pokémon).
pub open spec fn counter_effect_post(old: State, new: State, damage: u32, turns: u8, actor: usize) -> bool {
    let a = actor as int;
    match old.in_play_pokemon[a][0] {
        None => new == old,
        Some(pc) => {
            &&& new.in_play_pokemon[a][0] == Some(PlayedCard {
                effects: new.in_play_pokemon[a][0].unwrap().effects,
                ..pc
            })
            &&& new.in_play_pokemon[a][0].unwrap().effects@ == pc.effects@.push((CardEffect::CounterattackDamage(damage), turns))
            &&& State::other_slots_same(old, new, a, 0)
            &&& new == (State { in_play_pokemon: new.in_play_pokemon, ..old })
        },
    }
}

/// Whether `new` is `old` after the coin flip of `actor`'s attack: a
/// forced heads of the turn is used up if there is one (giving heads),
/// then on heads `actor` is offered to switch in one of the opponent's
/// benched Pokémon; on tails nothing more happens.
pub open spec fn lure_effect_post(old: State, new: State, actor: usize) -> bool {
    exists|mid: State, forced: bool| {
        &&& #[trigger] State::heads_consumed_post(old, mid, forced)
        &&& if forced {
            choice_post(mid, new, actor, opponent_of(actor) as usize)
        } else {
            new == mid || choice_post(mid, new, actor, opponent_of(actor) as usize)
        }
    }
}

/// Whether `new` is `old` after `actor`'s active Pokémon discards one
/// `energy` (nothing happens when it has none of that type).
pub open spec fn discard_effect_post(old: State, new: State, energy: EnergyType, actor: usize) -> bool {
    let a = actor as int;
    let slot = old.in_play_pokemon[a][0];
    if slot is Some && slot.unwrap().attached_energy@.contains(energy) {
        let pc = slot.unwrap();
        &&& new.in_play_pokemon[a][0] matches Some(npc)
            && npc.attached_energy@ == swap_remove_first(pc.attached_energy@, energy)
            && npc == (PlayedCard { attached_energy: npc.attached_energy, ..pc })
        &&& State::other_slots_same(old, new, a, 0)
        &&& new.discard_energies[a]@ == old.discard_energies[a]@.push(energy)
        &&& new.discard_energies[1 - a] == old.discard_energies[1 - a]
        &&& new == (State {
            discard_energies: new.discard_energies,
            in_play_pokemon: new.in_play_pokemon,
            ..old
        })
    } else {
        new == old
    }
}

/// Whether `new` is `old` after `actor`'s active Pokémon, if there is one,
/// discards all of its energies.
pub open spec fn discard_all_effect_post(old: State, new: State, actor: usize) -> bool {
    let a = actor as int;
    match old.in_play_pokemon[a][0] {
        None => new == old,
        Some(pc) => {
            &&& new.in_play_pokemon[a][0] matches Some(npc)
                && npc.attached_energy@.len() == 0
                && npc == (PlayedCard { attached_energy: npc.attached_energy, ..pc })
            &&& State::other_slots_same(old, new, a, 0)
            &&& new.discard_energies[a]@ == old.discard_energies[a]@ + pc.attached_energy@
            &&& new.discard_energies[1 - a] == old.discard_energies[1 - a]
            &&& new == (State {
                discard_energies: new.discard_energies,
                in_play_pokemon: new.in_play_pokemon,
                ..old
            })
        },
    }
}

/// Whether `new` is `old` after `effect` runs for `action`.
pub open spec fn effect_post(old: State, new: State, effect: FnMutation, action: Action) -> bool {
    match effect {
        FnMutation::NoEffect => new == old,
        FnMutation::OpponentActiveStatus(status) => status_effect_post(old, new, status, action.actor),
        FnMutation::SwitchSelfWithBench => switch_effect_post(old, new, action.actor),
        FnMutation::SelfDiscardEnergy(energy) => discard_effect_post(old, new, energy, action.actor),
        FnMutation::SelfDiscardAllEnergy => discard_all_effect_post(old, new, action.actor),
        FnMutation::SelfCounterattack { damage, turns } => counter_effect_post(old, new, damage, turns, action.actor),
        FnMutation::CoinFlipSwitchInOpponentBench => lure_effect_post(old, new, action.actor),
    }
}

/// Runs an additional effect for `action`; a coin flip draws from `rng`.
pub fn apply_effect(effect: &FnMutation, rng: &mut StdRng, state: &mut State, action: &Action)
    requires
        action.actor < 2,
        effect_ready(*effect, *old(state), *action),
    ensures
        effect_post(*old(state), *final(state), *effect, *action),
{
    match effect {
        FnMutation::NoEffect => {},
        FnMutation::OpponentActiveStatus(status) => apply_status_effect(state, *status, action.actor),
        FnMutation::SwitchSelfWithBench => apply_switch_effect(state, action.actor),
        FnMutation::SelfDiscardEnergy(energy) => apply_discard_effect(state, *energy, action.actor),
        FnMutation::SelfDiscardAllEnergy => apply_discard_all_effect(state, action.actor),
        FnMutation::SelfCounterattack { damage, turns } => apply_counter_effect(state, *damage, *turns, action.actor),
        FnMutation::CoinFlipSwitchInOpponentBench => apply_lure_effect(state, rng, action.actor),
    }
}

fn apply_status_effect(state: &mut State, status: StatusCondition, actor: usize)
    requires
        actor < 2,
    ensures
        status_effect_post(*old(state), *final(state), status, actor),
{
    let opponent = (actor + 1) % 2;
    state.apply_status_condition(opponent, 0, status);
}

/// Offers `chooser` to move one of the benched Pokémon of `side` into its
/// Active Spot.
fn offer_activations(state: &mut State, chooser: usize, side: usize)
    requires
        chooser < 2,
        side < 2,
    ensures
        choice_post(*old(state), *final(state), chooser, side),
{
    let bench = state.enumerate_bench_pokemon(side);
    if bench.len() == 0 {
        return;
    }
    let ghost indices = State::occupied_slots(state.in_play_pokemon[side as int]@, 1, 4);
    let mut choices: Vec<SimpleAction> = Vec::new();
    let mut k: usize = 0;
    while k < bench.len()
        invariant
            k <= bench@.len(),
            bench@.map_values(|e: (usize, &PlayedCard)| e.0 as int) == indices,
            choices@ == State::activations(side, indices.take(k as int)),
        decreases bench@.len() - k,
    {
        let (i, _) = bench[k];
        assert(indices[k as int] == i as int);
        choices.push(SimpleAction::Activate { player: side, in_play_idx: i });
        assert(State::activations(side, indices.take(k + 1))
            =~= State::activations(side, indices.take(k as int)).push(
                SimpleAction::Activate { player: side, in_play_idx: i }));
        k = k + 1;
    }
    assert(indices.take(bench@.len() as int) == indices);
    state.move_generation_stack.push((chooser, choices));
    assert(state.move_generation_stack@.drop_last() == old(state).move_generation_stack@);
}

fn apply_switch_effect(state: &mut State, actor: usize)
    requires
        actor < 2,
    ensures
        switch_effect_post(*old(state), *final(state), actor),
{
    offer_activations(state, actor, actor);
}

fn apply_counter_effect(state: &mut State, damage: u32, turns: u8, actor: usize)
    requires
        actor < 2,
    ensures
        counter_effect_post(*old(state), *final(state), damage, turns, actor),
{
    if state.in_play_pokemon[actor][0].is_none() {
        return;
    }
    let mut pokemon = state.in_play_pokemon[actor][0].take().unwrap();
    pokemon.effects.push((CardEffect::CounterattackDamage(damage), turns));
    state.in_play_pokemon[actor][0] = Some(pokemon);
}

fn apply_lure_effect(state: &mut State, rng: &mut StdRng, actor: usize)
    requires
        actor < 2,
    ensures
        lure_effect_post(*old(state), *final(state), actor),
{
    let forced = state.consume_pending_will_first_heads();
    let ghost mid = *state;
    let heads = forced || gen_index(rng, 2) == 0;
    if heads {
        offer_activations(state, actor, 1 - actor);
    }
    assert(State::heads_consumed_post(*old(state), mid, forced));
}

fn apply_discard_effect(state: &mut State, energy: EnergyType, actor: usize)
    requires
        actor < 2,
    ensures
        discard_effect_post(*old(state), *final(state), energy, actor),
{
    let has_energy = match &state.in_play_pokemon[actor][0] {
        Some(pokemon) => State::energy_contains(&pokemon.attached_energy, energy),
        None => false,
    };
    if !has_energy {
        return;
    }
    let mut to_discard: Vec<EnergyType> = Vec::new();
    to_discard.push(energy);
    proof {
        let att = state.in_play_pokemon[actor as int][0].unwrap().attached_energy@;
        assert(to_discard@.drop_last() =~= Seq::<EnergyType>::empty());
        assert(State::after_discarding(att, to_discard@.drop_last()) == att);
        assert(State::can_discard(att, to_discard@.drop_last()));
        assert(State::can_discard(att, to_discard@));
        assert(State::after_discarding(att, to_discard@) == swap_remove_first(att, energy));
    }
    state.discard_energy_from_in_play(actor, 0, to_discard.as_slice());
    assert(state.discard_energies[actor as int]@ == old(state).discard_energies[actor as int]@.push(energy));
}

fn apply_discard_all_effect(state: &mut State, actor: usize)
    requires
        actor < 2,
    ensures
        discard_all_effect_post(*old(state), *final(state), actor),
{
    if state.in_play_pokemon[actor][0].is_none() {
        return;
    }
    let mut pokemon = state.in_play_pokemon[actor][0].take().unwrap();
    let mut energies: Vec<EnergyType> = Vec::new();
    std::mem::swap(&mut energies, &mut pokemon.attached_energy);
    state.discard_energies[actor].append(&mut energies);
    state.in_play_pokemon[actor][0] = Some(pokemon);
}

/// The hits of a mutation, as (damage, player, slot), on `actor`'s opponent.
pub open spec fn opponent_targets(targets: Seq<(u32, usize)>, actor: usize) -> Seq<(u32, usize, usize)> {
    targets.map_values(|t: (u32, usize)| (t.0, opponent_of(actor) as usize, t.1))
}

/// A mutation's damage goes to its actor's opponent: each hit (damage,
/// slot) becomes, in the same order, a hit of that damage on that slot of the
/// opponent's side.
pub proof fn law_mutation_hits_opponent(targets: Seq<(u32, usize)>, actor: usize)
    requires
        actor < 2,
    ensures
        opponent_targets(targets, actor).len() == targets.len(),
        forall|k: int| 0 <= k < targets.len() ==> #[trigger] opponent_targets(targets, actor)[k] == (
            targets[k].0,
            (1 - actor) as usize,
            targets[k].1,
        ),
{
}

/// Whether `new` is `old` after `mutation` runs for `action`: the additional
/// effect, then the damage dealt by the attacker's active Pokémon.
pub open spec fn mutation_post(old: State, new: State, mutation: Mutation, action: Action) -> bool {
    outcome_post(old, new, mutation.targets@, mutation.additional_effect, action)
}

/// The damage of the first counterattack effect in `effects`, if any.
pub open spec fn first_counter(effects: Seq<(CardEffect, u8)>) -> Option<u32>
    decreases effects.len(),
{
    if effects.len() == 0 {
        None
    } else {
        match effects[0].0 {
            CardEffect::CounterattackDamage(d) => Some(d),
            _ => first_counter(effects.drop_first()),
        }
    }
}

/// The counterattack damage carried by `player`'s active Pokémon, if any.
pub open spec fn counter_of(state: State, player: int) -> Option<u32> {
    match state.in_play_pokemon[player][0] {
        Some(pc) => first_counter(pc.effects@),
        None => None,
    }
}

/// Whether some hit of `targets` does damage to the Active Spot.
pub open spec fn hits_active(targets: Seq<(u32, usize)>) -> bool {
    exists|k: int| 0 <= k < targets.len() && (#[trigger] targets[k]).1 == 0 && targets[k].0 > 0
}

/// Whether `new` is `damaged` after the counterattack that the attack of
/// `actor` provokes: when the defending active Pokémon, as it was before the
/// damage (`before`), carries a counterattack effect and the attack did
/// damage to the Active Spot, the attacker's active Pokémon takes that damage
/// (not as an attack); otherwise nothing happens.
pub open spec fn counter_post(before: State, damaged: State, new: State, targets: Seq<(u32, usize)>, actor: usize) -> bool {
    if counter_of(before, opponent_of(actor)) is Some && hits_active(targets) {
        damage_one_post(damaged, new, None, counter_of(before, opponent_of(actor)).unwrap(), actor as int, 0, false)
    } else {
        new == damaged
    }
}

/// The title of the attack that `action` uses with the active Pokémon of its
/// actor in `state`: `None` when the action is no attack, there is no active
/// Pokémon or it has no attack of that index.
pub open spec fn attack_title_of(state: State, action: Action) -> Option<Seq<char>> {
    match action.action {
        SimpleAction::Attack(k) => match state.in_play_pokemon[action.actor as int][0] {
            Some(pc) => if k < spec_num_attacks(pc.card.id) {
                Some(spec_attack_title(pc.card.id, k as int))
            } else {
                None
            },
            None => None,
        },
        _ => None,
    }
}

/// Whether `new` is `old` after `effect` runs for `action`, then the damage
/// step of the attack (its title read after the effect) to the opponent's
/// Pokémon at `targets`, each given as (damage, slot), then the counterattack
/// it provokes.
pub open spec fn outcome_post(
    old: State,
    new: State,
    targets: Seq<(u32, usize)>,
    effect: FnMutation,
    action: Action,
) -> bool {
    exists|mid: State, damaged: State| {
        &&& #[trigger] counter_post(mid, damaged, new, targets, action.actor)
        &&& effect_post(old, mid, effect, action)
        &&& damage_step_post(
            mid,
            damaged,
            (action.actor, 0usize),
            opponent_targets(targets, action.actor),
            true,
            attack_title_of(mid, action),
        )
    }
}

/// The counterattack damage carried by `player`'s active Pokémon, if any.
fn counter_amount(state: &State, player: usize) -> (r: Option<u32>)
    requires
        player < 2,
    ensures
        r == counter_of(*state, player as int),
{
    match &state.in_play_pokemon[player][0] {
        None => None,
        Some(pc) => {
            let mut i: usize = 0;
            assert(pc.effects@.skip(0) =~= pc.effects@);
            while i < pc.effects.len()
                invariant
                    i <= pc.effects@.len(),
                    player < 2,
                    state.in_play_pokemon[player as int][0] == Some(*pc),
                    first_counter(pc.effects@) == first_counter(pc.effects@.skip(i as int)),
                decreases pc.effects@.len() - i,
            {
                assert(pc.effects@.skip(i + 1) =~= pc.effects@.skip(i as int).drop_first());
                assert(pc.effects@.skip(i as int)[0] == pc.effects@[i as int]);
                if let CardEffect::CounterattackDamage(d) = &pc.effects[i].0 {
                    assert(pc.effects@.skip(i as int).len() > 0);
                    assert(first_counter(pc.effects@.skip(i as int)) == Some(*d));
                    return Some(*d);
                }
                i = i + 1;
            }
            assert(pc.effects@.skip(i as int) =~= Seq::<(CardEffect, u8)>::empty());
            None
        },
    }
}

/// Whether some hit of `targets` does damage to the Active Spot.
fn hits_active_exec(targets: &Vec<(u32, usize)>) -> (r: bool)
    ensures
        r == hits_active(targets@),
{
    let mut k: usize = 0;
    while k < targets.len()
        invariant
            k <= targets@.len(),
            forall|j: int| 0 <= j < k ==> !((#[trigger] targets@[j]).1 == 0 && targets@[j].0 > 0),
        decreases targets@.len() - k,
    {
        if targets[k].1 == 0 && targets[k].0 > 0 {
            assert(targets@[k as int].1 == 0 && targets@[k as int].0 > 0);
            return true;
        }
        k = k + 1;
    }
    false
}

/// Runs a mutation for `action`: its additional effect, then its damage from
/// the actor's active Pokémon to the opponent's Pokémon, then the
/// counterattack it provokes; a coin flip draws from `rng`.
pub fn apply_mutation(mutation: &Mutation, rng: &mut StdRng, state: &mut State, action: &Action)
    requires
        action.actor < 2,
        effect_ready(mutation.additional_effect, *old(state), *action),
        forall|k: int| 0 <= k < mutation.targets@.len() ==> (#[trigger] mutation.targets@[k]).1 < 4,
    ensures
        mutation_post(*old(state), *final(state), *mutation, *action),
{
    apply_effect(&mutation.additional_effect, rng, state, action);
    let ghost mid = *state;
    let opponent = (action.actor + 1) % 2;
    let counter = counter_amount(state, opponent);
    let hits = hits_active_exec(&mutation.targets);
    let mut targets: Vec<(u32, usize, usize)> = Vec::new();
    let mut k: usize = 0;
    while k < mutation.targets.len()
        invariant
            k <= mutation.targets@.len(),
            opponent == opponent_of(action.actor),
            targets@ == opponent_targets(mutation.targets@.take(k as int), action.actor),
        decreases mutation.targets@.len() - k,
    {
        let (damage, in_play_idx) = mutation.targets[k];
        targets.push((damage, opponent, in_play_idx));
        assert(opponent_targets(mutation.targets@.take(k + 1), action.actor)
            =~= opponent_targets(mutation.targets@.take(k as int), action.actor).push((damage, opponent, in_play_idx)));
        k = k + 1;
    }
    assert(mutation.targets@.take(mutation.targets@.len() as int) == mutation.targets@);
    let attack_name: Option<String> = match action.action {
        SimpleAction::Attack(k) => match &state.in_play_pokemon[action.actor][0] {
            Some(pc) => if k < pc.card.num_attacks() {
                Some(pc.card.attack_title(k))
            } else {
                None
            },
            None => None,
        },
        _ => None,
    };
    assert(match attack_name {
        Some(n) => Some(n@),
        None => None,
    } == attack_title_of(mid, *action));
    handle_damage(state, (action.actor, 0), &targets, true, &attack_name);
    let ghost damaged = *state;
    if let Some(d) = counter {
        if hits {
            damage_one(state, None, d, action.actor, 0, false);
        }
    }
    assert(counter_post(mid, damaged, *state, mutation.targets@, action.actor));
}

} // verus!

use vstd::prelude::*;

use crate::actions::SimpleAction;
use crate::effects::CardEffect;
use crate::hooks::{attack_cost_in_play, can_pay, contains_energy, get_attack_cost};
use crate::move_generation::bench_requirement::{
    bench_names, bench_requirement_met, bench_requirement_met_exec, law_supreme_blast_needs_uxie_and_azelf,
    lemma_database_texts_ok,
};
use crate::models::{CardId, spec_attack_effect, spec_attack_title, spec_num_attacks, spec_trainer_type, PlayedCard, TrainerType};
use crate::state::State;

verus! {

/// Whether an effect on `pc` forbids it to attack.
pub open spec fn cannot_attack(pc: PlayedCard) -> bool {
    exists|k: int| 0 <= k < pc.effects@.len() && (#[trigger] pc.effects@[k]).0 == CardEffect::CannotAttack
}

/// Whether `effect` forbids the attack with this title.
pub open spec fn forbids(effect: CardEffect, title: Seq<char>) -> bool {
    match effect {
        CardEffect::CannotUseAttack(name) => name@ == title,
        _ => false,
    }
}

/// Whether an effect on `pc` forbids the attack with this title.
pub open spec fn attack_restricted(pc: PlayedCard, title: Seq<char>) -> bool {
    exists|k: int| 0 <= k < pc.effects@.len() && forbids((#[trigger] pc.effects@[k]).0, title)
}

/// Whether `pc` may use its attack `i` with benched Pokémon named `bench`:
/// its energies pay the cost as it stands in play, no effect forbids that
/// attack and the Pokémon its text requires on the bench are there.
pub open spec fn attack_usable(pc: PlayedCard, bench: Seq<Seq<char>>, i: int) -> bool {
    &&& can_pay(pc.attached_energy@, attack_cost_in_play(pc, i))
    &&& !attack_restricted(pc, spec_attack_title(pc.card.id, i))
    &&& bench_requirement_met(spec_attack_effect(pc.card.id, i), bench)
}

/// Mesprit's Supreme Blast is usable only with both Uxie and Azelf among
/// the benched Pokémon, and then, once its cost is paid and no effect
/// forbids it, it is usable.
pub proof fn law_supreme_blast_usable(pc: PlayedCard, bench: Seq<Seq<char>>)
    requires
        pc.card.id == CardId::A2059Mesprit,
    ensures
        attack_usable(pc, bench, 0) ==> bench.contains("Uxie"@) && bench.contains("Azelf"@),
        can_pay(pc.attached_energy@, attack_cost_in_play(pc, 0)) && !attack_restricted(pc, spec_attack_title(pc.card.id, 0))
            && bench.contains("Uxie"@) && bench.contains("Azelf"@) ==> attack_usable(pc, bench, 0),
{
    law_supreme_blast_needs_uxie_and_azelf(bench);
}

/// The usable attacks among the first `n` attacks of `pc`, in order.
pub open spec fn usable_attacks(pc: PlayedCard, bench: Seq<Seq<char>>, n: int) -> Seq<SimpleAction>
    decreases n,
{
    if n <= 0 {
        Seq::empty()
    } else {
        let rest = usable_attacks(pc, bench, n - 1);
        if attack_usable(pc, bench, n - 1) {
            rest.push(SimpleAction::Attack((n - 1) as usize))
        } else {
            rest
        }
    }
}

/// The attacks the current player's active Pokémon may use: none without an
/// active Pokémon, for a fossil, or under an effect that forbids attacking.
pub open spec fn attack_actions(state: State) -> Seq<SimpleAction> {
    match state.in_play_pokemon[state.current_player as int][0] {
        None => Seq::empty(),
        Some(pc) => if spec_trainer_type(pc.card.id) == Some(TrainerType::Fossil) || cannot_attack(pc) {
            Seq::empty()
        } else {
            usable_attacks(
                pc,
                bench_names(state.in_play_pokemon[state.current_player as int]@, 4),
                spec_num_attacks(pc.card.id) as int,
            )
        },
    }
}

/// Whether some effect in `effects` is `CannotAttack`.
fn has_cannot_attack(effects: &Vec<CardEffect>) -> (r: bool)
    ensures
        r == exists|k: int| 0 <= k < effects@.len() && effects@[k] == CardEffect::CannotAttack,
{
    let mut i: usize = 0;
    while i < effects.len()
        invariant
            i <= effects@.len(),
            forall|k: int| 0 <= k < i ==> effects@[k] != CardEffect::CannotAttack,
        decreases effects@.len() - i,
    {
        if let CardEffect::CannotAttack = &effects[i] {
            return true;
        }
        i = i + 1;
    }
    false
}

/// Whether some effect in `effects` forbids the attack titled `title`.
fn is_restricted(effects: &Vec<CardEffect>, title: &String) -> (r: bool)
    ensures
        r == exists|k: int| 0 <= k < effects@.len() && forbids(effects@[k], title@),
{
    let mut i: usize = 0;
    while i < effects.len()
        invariant
            i <= effects@.len(),
            forall|k: int| 0 <= k < i ==> !forbids(effects@[k], title@),
        decreases effects@.len() - i,
    {
        let hit = match &effects[i] {
            CardEffect::CannotUseAttack(name) => name.eq(title),
            _ => false,
        };
        assert(hit == forbids(effects@[i as int], title@));
        if hit {
            return true;
        }
        i = i + 1;
    }
    false
}

/// The attack actions available to the current player.
pub fn generate_attack_actions(state: &State) -> (r: Vec<SimpleAction>)
    requires
        state.current_player < 2,
    ensures
        r@ == attack_actions(*state),
{
    let current_player = state.current_player;
    let mut actions: Vec<SimpleAction> = Vec::new();
    if let Some(active_pokemon) = &state.in_play_pokemon[current_player][0] {
        // Fossil cards cannot attack
        if active_pokemon.is_fossil() {
            return actions;
        }
        let active_effects = active_pokemon.get_active_effects();
        let ghost pc = *active_pokemon;
        proof {
            assert forall|k: int| 0 <= k < active_effects@.len() implies active_effects@[k] == (#[trigger] pc.effects@[k]).0 by {}
        }
        if has_cannot_attack(&active_effects) {
            proof {
                let k = choose|k: int| 0 <= k < active_effects@.len() && active_effects@[k] == CardEffect::CannotAttack;
                assert(pc.effects@[k].0 == CardEffect::CannotAttack);
            }
            return actions;
        }
        proof {
            if cannot_attack(pc) {
                let k = choose|k: int| 0 <= k < pc.effects@.len() && (#[trigger] pc.effects@[k]).0 == CardEffect::CannotAttack;
                assert(active_effects@[k] == CardEffect::CannotAttack);
            }
        }
        let ghost bench = bench_names(state.in_play_pokemon[current_player as int]@, 4);
        let n = active_pokemon.card.num_attacks();
        let mut i: usize = 0;
        while i < n
            invariant
                i <= n,
                n == spec_num_attacks(pc.card.id),
                pc == *active_pokemon,
                active_effects@ == pc.effects@.map_values(|p: (CardEffect, u8)| p.0),
                actions@ == usable_attacks(pc, bench, i as int),
                current_player < 2,
                bench == bench_names(state.in_play_pokemon[current_player as int]@, 4),
            decreases n - i,
        {
            let cost = get_attack_cost(active_pokemon, i);
            if contains_energy(active_pokemon, &cost) {
                let title = active_pokemon.card.attack_title(i);
                let restricted = is_restricted(&active_effects, &title);
                proof {
                    if attack_restricted(pc, title@) {
                        let k = choose|k: int| 0 <= k < pc.effects@.len() && forbids((#[trigger] pc.effects@[k]).0, title@);
                        assert(active_effects@[k] == pc.effects@[k].0);
                    }
                    if restricted {
                        let k = choose|k: int| 0 <= k < active_effects@.len() && forbids(active_effects@[k], title@);
                        assert(active_effects@[k] == pc.effects@[k].0);
                    }
                }
                if !restricted {
                    let effect = active_pokemon.card.attack_effect(i);
                    assert(match effect {
                        Some(t) => Some(t@),
                        None => None,
                    } == spec_attack_effect(pc.card.id, i as int));
                    proof {
                        lemma_database_texts_ok(pc.card.id, i as int);
                    }
                    if bench_requirement_met_exec(&effect, &state.in_play_pokemon[current_player]) {
                        actions.push(SimpleAction::Attack(i));
                    }
                }
            }
            i = i + 1;
        }
    }
    actions
}

} // verus!

use vstd::prelude::*;

use crate::models::{spec_attack_cost, spec_tool_cost_discount, Card, EnergyType, PlayedCard};
use crate::state::seq_util::{first_index_of, lemma_first_index};

verus! {

/// A Pokémon card put into play, in play since this turn or not.
pub fn to_playable_card(card: &Card, played_this_turn: bool) -> (r: PlayedCard)
    ensures
        r.is_fresh(*card, played_this_turn),
{
    PlayedCard::new(*card, played_this_turn)
}

/// Number of energies of type `e` in `s`.
pub open spec fn count_energy(s: Seq<EnergyType>, e: EnergyType) -> nat
    decreases s.len(),
{
    if s.len() == 0 {
        0
    } else {
        count_energy(s.drop_last(), e) + if s.last() == e { 1nat } else { 0nat }
    }
}

/// Whether `attached` pays for `cost`: every typed energy of the cost is
/// matched by an attached energy of that type, and Colorless requirements by
/// any of the remaining energies.
pub open spec fn can_pay(attached: Seq<EnergyType>, cost: Seq<EnergyType>) -> bool {
    &&& attached.len() >= cost.len()
    &&& forall|e: EnergyType| e != EnergyType::Colorless ==> #[trigger] count_energy(attached, e) >= count_energy(cost, e)
}

/// The nine energy types that a cost can name specifically.
pub open spec fn typed_energy(i: int) -> EnergyType {
    if i == 0 {
        EnergyType::Grass
    } else if i == 1 {
        EnergyType::Fire
    } else if i == 2 {
        EnergyType::Water
    } else if i == 3 {
        EnergyType::Lightning
    } else if i == 4 {
        EnergyType::Psychic
    } else if i == 5 {
        EnergyType::Fighting
    } else if i == 6 {
        EnergyType::Darkness
    } else if i == 7 {
        EnergyType::Metal
    } else {
        EnergyType::Dragon
    }
}

fn typed_energy_exec(i: usize) -> (r: EnergyType)
    ensures
        r == typed_energy(i as int),
{
    match i {
        0 => EnergyType::Grass,
        1 => EnergyType::Fire,
        2 => EnergyType::Water,
        3 => EnergyType::Lightning,
        4 => EnergyType::Psychic,
        5 => EnergyType::Fighting,
        6 => EnergyType::Darkness,
        7 => EnergyType::Metal,
        _ => EnergyType::Dragon,
    }
}

/// Number of energies of type `e` in `energies`.
pub fn count_energy_exec(energies: &Vec<EnergyType>, e: EnergyType) -> (r: usize)
    ensures
        r == count_energy(energies@, e),
{
    let mut count: usize = 0;
    let mut i: usize = 0;
    while i < energies.len()
        invariant
            i <= energies@.len(),
            count == count_energy(energies@.take(i as int), e),
            count <= i,
        decreases energies@.len() - i,
    {
        assert(energies@.take(i + 1).drop_last() == energies@.take(i as int));
        if energies[i] == e {
            count = count + 1;
        }
        i = i + 1;
    }
    assert(energies@.take(energies@.len() as int) == energies@);
    count
}

/// Whether the energies attached to `pokemon` pay for `cost`.
pub fn contains_energy(pokemon: &PlayedCard, cost: &Vec<EnergyType>) -> (r: bool)
    ensures
        r == can_pay(pokemon.attached_energy@, cost@),
{
    if pokemon.attached_energy.len() < cost.len() {
        return false;
    }
    let mut t: usize = 0;
    while t < 9
        invariant
            t <= 9,
            forall|j: int| 0 <= j < t ==> count_energy(pokemon.attached_energy@, #[trigger] typed_energy(j))
                >= count_energy(cost@, typed_energy(j)),
        decreases 9 - t,
    {
        let e = typed_energy_exec(t);
        if count_energy_exec(&pokemon.attached_energy, e) < count_energy_exec(cost, e) {
            return false;
        }
        t = t + 1;
    }
    assert forall|e: EnergyType| e != EnergyType::Colorless implies #[trigger] count_energy(pokemon.attached_energy@, e)
        >= count_energy(cost@, e) by {
        let j: int = match e {
            EnergyType::Grass => 0int,
            EnergyType::Fire => 1int,
            EnergyType::Water => 2int,
            EnergyType::Lightning => 3int,
            EnergyType::Psychic => 4int,
            EnergyType::Fighting => 5int,
            EnergyType::Darkness => 6int,
            EnergyType::Metal => 7int,
            _ => 8int,
        };
        assert(typed_energy(j) == e);
    }
    true
}

/// The cost of attack `i` of `pc` as it stands in play: the printed cost,
/// less its first energy of the discounted type when the attack grants a
/// discount for an attached Pokémon Tool, the Pokémon has a tool and the
/// cost names that type.
pub open spec fn attack_cost_in_play(pc: PlayedCard, i: int) -> Seq<EnergyType> {
    let printed = spec_attack_cost(pc.card.id, i);
    match spec_tool_cost_discount(pc.card.id, i) {
        Some(e) => if pc.attached_tool is Some && printed.contains(e) {
            printed.remove(first_index_of(printed, e))
        } else {
            printed
        },
        None => printed,
    }
}

/// The cost of attack `i` of `pokemon` as it stands in play.
pub fn get_attack_cost(pokemon: &PlayedCard, i: usize) -> (r: Vec<EnergyType>)
    ensures
        r@ == attack_cost_in_play(*pokemon, i as int),
{
    let mut cost = pokemon.card.attack_cost(i);
    let discount = pokemon.card.tool_cost_discount(i);
    if let Some(e) = discount {
        if pokemon.attached_tool.is_some() {
            let mut k: usize = 0;
            while k < cost.len()
                invariant
                    k <= cost@.len(),
                    cost@ == spec_attack_cost(pokemon.card.id, i as int),
                    spec_tool_cost_discount(pokemon.card.id, i as int) == Some(e),
                    pokemon.attached_tool is Some,
                    forall|j: int| 0 <= j < k ==> cost@[j] != e,
                decreases cost@.len() - k,
            {
                if cost[k] == e {
                    let ghost printed = cost@;
                    proof {
                        lemma_first_index(cost@, e, k as int);
                        assert(printed.contains(e));
                    }
                    cost.remove(k);
                    assert(cost@ == printed.remove(first_index_of(printed, e)));
                    return cost;
                }
                k = k + 1;
            }
            assert(!cost@.contains(e));
        }
    }
    cost
}

} // verus!

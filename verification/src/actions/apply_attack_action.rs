use vstd::prelude::*;

use crate::actions::attacks::{BenchSide, Mechanic};
use crate::actions::mutations::{
    active_damage_doutcome, active_damage_effect_doutcome, certain, damage_effect_doutcome, FnMutation, Mutations,
    Probabilities,
};
use crate::effects::CardEffect;
use crate::models::{
    spec_attack_damage, spec_attack_mechanic, spec_energy_type, spec_name, spec_num_attacks, CardId, EnergyType,
    PlayedCard,
};
use crate::state::State;

verus! {

/// Whether the Pokémon in `slot` counts for a bench count restricted to
/// `energy_type` (any Pokémon when there is no restriction).
pub open spec fn counts_for(slot: Option<PlayedCard>, energy_type: Option<EnergyType>) -> bool {
    match slot {
        None => false,
        Some(pc) => match energy_type {
            None => true,
            Some(t) => spec_energy_type(pc.card.id) == Some(t),
        },
    }
}

/// Number of the slots `lo..hi` of `slots` that count for `energy_type`.
pub open spec fn count_matching(slots: Seq<Option<PlayedCard>>, energy_type: Option<EnergyType>, lo: int, hi: int) -> nat
    decreases hi - lo,
{
    if hi <= lo {
        0
    } else {
        count_matching(slots, energy_type, lo, hi - 1) + if counts_for(slots[hi - 1], energy_type) { 1nat } else { 0nat }
    }
}

/// Number of benched Pokémon counted by a bench-count attack of `actor`.
pub open spec fn bench_count(state: State, actor: int, energy_type: Option<EnergyType>, side: BenchSide) -> nat {
    let own = count_matching(state.in_play_pokemon[actor]@, energy_type, 1, 4);
    let theirs = count_matching(state.in_play_pokemon[1 - actor]@, energy_type, 1, 4);
    match side {
        BenchSide::YourBench => own,
        BenchSide::OpponentBench => theirs,
        BenchSide::BothBenches => own + theirs,
    }
}

/// `x`, or the largest `u32` when `x` exceeds it.
pub open spec fn clamp_u32(x: int) -> u32 {
    if x > u32::MAX { u32::MAX } else { x as u32 }
}

/// Whether a Pokémon named `name` is on the bench among `slots`.
pub open spec fn name_on_bench(slots: Seq<Option<PlayedCard>>, name: Seq<char>) -> bool {
    exists|j: int| 1 <= j < 4 && (#[trigger] slots[j]) is Some && spec_name(slots[j].unwrap().card.id) == name
}

/// `base` damage to the defending active Pokémon only.
pub open spec fn active_only(base: u32) -> Seq<(u32, usize)> {
    seq![(base, 0usize)]
}

/// `base` damage to the defending active Pokémon and `damage` to each of the
/// three bench slots.
pub open spec fn active_and_bench(base: u32, damage: u32) -> Seq<(u32, usize)> {
    seq![(base, 0usize), (damage, 1usize), (damage, 2usize), (damage, 3usize)]
}

/// How an attack of `actor`'s active Pokémon resolves, given its printed
/// damage `base` and its mechanic `m`: the hits on the opponent's slots, as
/// (damage, slot), and the additional effect. `None` when the mechanic is not
/// implemented.
pub open spec fn mechanic_plan(state: State, actor: int, base: u32, m: Option<Mechanic>) -> Option<(Seq<(u32, usize)>, FnMutation)> {
    match m {
        None => Some((active_only(base), FnMutation::NoEffect)),
        Some(Mechanic::SelfDiscardEnergy { energies }) => if energies@.len() == 1 {
            Some((active_only(base), FnMutation::SelfDiscardEnergy(energies@[0])))
        } else {
            None
        },
        Some(Mechanic::BenchCountDamage { include_fixed_damage, damage_per, energy_type, bench_side }) => {
            let fixed: int = if include_fixed_damage { base as int } else { 0 };
            Some((
                active_only(clamp_u32(fixed + damage_per * bench_count(state, actor, energy_type, bench_side))),
                FnMutation::NoEffect,
            ))
        },
        Some(Mechanic::SwitchSelfWithBench) => Some((active_only(base), FnMutation::SwitchSelfWithBench)),
        Some(Mechanic::RequireBenchPokemonAndDiscardAllEnergy { .. }) => Some((active_only(base), FnMutation::SelfDiscardAllEnergy)),
        Some(Mechanic::AlsoBenchDamageIfPokemonOnBench { pokemon_name, damage }) => Some((
            if name_on_bench(state.in_play_pokemon[actor]@, pokemon_name@) {
                active_and_bench(base, damage)
            } else {
                active_only(base)
            },
            FnMutation::NoEffect,
        )),
        Some(Mechanic::DamageAndCardEffect { opponent, effect, duration, coin_flip }) => match effect {
            CardEffect::CounterattackDamage(d) => if !opponent && !coin_flip {
                Some((active_only(base), FnMutation::SelfCounterattack { damage: d, turns: duration }))
            } else {
                None
            },
            _ => None,
        },
        Some(Mechanic::CoinFlipSwitchInOpponentBench) => Some((active_only(base), FnMutation::CoinFlipSwitchInOpponentBench)),
        _ => None,
    }
}

/// 1 when slot `j` of `slots` holds a Pokémon of type `t`, else 0.
pub open spec fn of_type(slots: Seq<Option<PlayedCard>>, j: int, t: EnergyType) -> int {
    if slots[j] is Some && spec_energy_type(slots[j].unwrap().card.id) == Some(t) { 1 } else { 0 }
}

/// Number of benched Pokémon of type `t` among `slots`.
pub open spec fn benched_of_type(slots: Seq<Option<PlayedCard>>, t: EnergyType) -> int {
    of_type(slots, 1, t) + of_type(slots, 2, t) + of_type(slots, 3, t)
}

/// A bench-count attack restricted to type `t` that counts the attacker's
/// own bench does its fixed damage (when it has one) plus `damage_per` for
/// each benched Pokémon of type `t`, and nothing for the others; its only
/// target is the defending Active Pokémon.
pub proof fn law_bench_count_by_type(
    state: State,
    actor: int,
    base: u32,
    include_fixed_damage: bool,
    damage_per: u32,
    t: EnergyType,
)
    requires
        0 <= actor < 2,
        state.in_play_pokemon[actor]@.len() == 4,
    ensures
        mechanic_plan(state, actor, base, Some(Mechanic::BenchCountDamage {
            include_fixed_damage,
            damage_per,
            energy_type: Some(t),
            bench_side: BenchSide::YourBench,
        })) == Some((
            seq![(
                clamp_u32(
                    (if include_fixed_damage { base as int } else { 0 }) + damage_per * benched_of_type(
                        state.in_play_pokemon[actor]@,
                        t,
                    ),
                ),
                0usize,
            )],
            FnMutation::NoEffect,
        )),
{
    let slots = state.in_play_pokemon[actor]@;
    reveal_with_fuel(count_matching, 4);
    assert(count_matching(slots, Some(t), 1, 4) == benched_of_type(slots, t));
}

/// Two positions whose attacker's benches hold the same number of Pokémon of
/// type `t` get the same plan from a bench-count attack restricted to `t`,
/// whatever other Pokémon are benched.
pub proof fn law_bench_count_ignores_other_types(
    s1: State,
    s2: State,
    actor: int,
    base: u32,
    include_fixed_damage: bool,
    damage_per: u32,
    t: EnergyType,
)
    requires
        0 <= actor < 2,
        s1.in_play_pokemon[actor]@.len() == 4,
        s2.in_play_pokemon[actor]@.len() == 4,
        benched_of_type(s1.in_play_pokemon[actor]@, t) == benched_of_type(s2.in_play_pokemon[actor]@, t),
    ensures
        ({
            let m = Some(Mechanic::BenchCountDamage {
                include_fixed_damage,
                damage_per,
                energy_type: Some(t),
                bench_side: BenchSide::YourBench,
            });
            mechanic_plan(s1, actor, base, m) == mechanic_plan(s2, actor, base, m)
        }),
{
    law_bench_count_by_type(s1, actor, base, include_fixed_damage, damage_per, t);
    law_bench_count_by_type(s2, actor, base, include_fixed_damage, damage_per, t);
}

/// Wishiwashi ex's School Storm does 30 damage plus 40 for each of the
/// attacker's benched Water Pokémon, to the defending Active Pokémon only.
pub proof fn law_school_storm(state: State, actor: int, m: Option<Mechanic>)
    requires
        0 <= actor < 2,
        state.in_play_pokemon[actor]@.len() == 4,
        state.in_play_pokemon[actor][0] matches Some(pc) && pc.card.id == CardId::A4b124WishiwashiEx,
        spec_attack_mechanic(CardId::A4b124WishiwashiEx, 0, m),
    ensures
        attack_plan(state, actor, 0, m) == Some((
            seq![((30 + 40 * benched_of_type(state.in_play_pokemon[actor]@, EnergyType::Water)) as u32, 0usize)],
            FnMutation::NoEffect,
        )),
{
    law_bench_count_by_type(state, actor, 30, true, 40, EnergyType::Water);
    assert(benched_of_type(state.in_play_pokemon[actor]@, EnergyType::Water) <= 3);
}

/// Whether an attack with mechanic `m` is implemented.
pub open spec fn mechanic_implemented(m: Option<Mechanic>) -> bool {
    match m {
        None => true,
        Some(Mechanic::SelfDiscardEnergy { energies }) => energies@.len() == 1,
        Some(Mechanic::BenchCountDamage { .. }) => true,
        Some(Mechanic::SwitchSelfWithBench) => true,
        Some(Mechanic::RequireBenchPokemonAndDiscardAllEnergy { .. }) => true,
        Some(Mechanic::AlsoBenchDamageIfPokemonOnBench { .. }) => true,
        Some(Mechanic::DamageAndCardEffect { opponent, effect, coin_flip, .. }) => !opponent && !coin_flip
            && effect is CounterattackDamage,
        Some(Mechanic::CoinFlipSwitchInOpponentBench) => true,
        _ => false,
    }
}

/// Whether an attack with mechanic `m` is implemented.
pub fn mechanic_implemented_exec(m: &Option<Mechanic>) -> (r: bool)
    ensures
        r == mechanic_implemented(*m),
{
    match m {
        None => true,
        Some(Mechanic::SelfDiscardEnergy { energies }) => energies.len() == 1,
        Some(Mechanic::BenchCountDamage { .. }) => true,
        Some(Mechanic::SwitchSelfWithBench) => true,
        Some(Mechanic::RequireBenchPokemonAndDiscardAllEnergy { .. }) => true,
        Some(Mechanic::AlsoBenchDamageIfPokemonOnBench { .. }) => true,
        Some(Mechanic::DamageAndCardEffect { opponent, effect, coin_flip, .. }) => !*opponent && !*coin_flip
            && match effect {
                CardEffect::CounterattackDamage(_) => true,
                _ => false,
            },
        Some(Mechanic::CoinFlipSwitchInOpponentBench) => true,
        _ => false,
    }
}

/// A mechanic is planned exactly when it is implemented.
pub proof fn lemma_plan_iff_implemented(state: State, actor: int, base: u32, m: Option<Mechanic>)
    ensures
        mechanic_plan(state, actor, base, m) is Some <==> mechanic_implemented(m),
{
}

/// The plan of attack `idx` of `actor`'s active Pokémon, for the mechanic `m`
/// that the card database gives that attack.
pub open spec fn attack_plan(state: State, actor: int, idx: int, m: Option<Mechanic>) -> Option<(Seq<(u32, usize)>, FnMutation)> {
    let id = state.in_play_pokemon[actor][0].unwrap().card.id;
    mechanic_plan(state, actor, spec_attack_damage(id, idx), m)
}

/// A plan hits only slots of the board and never needs a defending active
/// Pokémon for its additional effect.
pub proof fn lemma_plan_targets(state: State, actor: int, idx: int, m: Option<Mechanic>)
    requires
        attack_plan(state, actor, idx, m) is Some,
    ensures
        forall|k: int| 0 <= k < attack_plan(state, actor, idx, m).unwrap().0.len()
            ==> (#[trigger] attack_plan(state, actor, idx, m).unwrap().0[k]).1 < 4,
        !(attack_plan(state, actor, idx, m).unwrap().1 is OpponentActiveStatus),
{
}

/// Every attack printed on a card of the database is implemented.
pub proof fn lemma_attacks_implemented(state: State, actor: int, idx: int, m: Option<Mechanic>)
    requires
        state.in_play_pokemon[actor][0] is Some,
        0 <= idx < spec_num_attacks(state.in_play_pokemon[actor][0].unwrap().card.id),
        spec_attack_mechanic(state.in_play_pokemon[actor][0].unwrap().card.id, idx, m),
    ensures
        attack_plan(state, actor, idx, m) is Some,
{
    let id = state.in_play_pokemon[actor][0].unwrap().card.id;
    crate::database::lemma_database_attacks_implemented(id);
    assert(mechanic_implemented(m));
    lemma_plan_iff_implemented(state, actor, spec_attack_damage(id, idx), m);
}

/// Counts the slots `1..4` of `slots` that hold a Pokémon counting for
/// `energy_type`.
fn count_bench(slots: &[Option<PlayedCard>; 4], energy_type: Option<EnergyType>) -> (r: u32)
    ensures
        r == count_matching(slots@, energy_type, 1, 4),
        r <= 3,
{
    let mut count: u32 = 0;
    let mut i: usize = 1;
    while i < 4
        invariant
            1 <= i <= 4,
            count == count_matching(slots@, energy_type, 1, i as int),
            count <= i - 1,
        decreases 4 - i,
    {
        let counts = match &slots[i] {
            None => false,
            Some(pc) => match energy_type {
                None => true,
                Some(t) => pc.get_energy_type() == Some(t),
            },
        };
        if counts {
            count = count + 1;
        }
        i = i + 1;
    }
    count
}

/// Whether a Pokémon named `name` is on the bench among `slots`.
fn has_named_bench(slots: &[Option<PlayedCard>; 4], name: &String) -> (r: bool)
    ensures
        r == name_on_bench(slots@, name@),
{
    let mut j: usize = 1;
    while j < 4
        invariant
            1 <= j <= 4,
            forall|k: int| 1 <= k < j ==> !((#[trigger] slots@[k]) is Some && spec_name(slots@[k].unwrap().card.id) == name@),
        decreases 4 - j,
    {
        if let Some(pc) = &slots[j] {
            let n = pc.get_name();
            if n.eq(name) {
                assert(slots@[j as int] is Some && spec_name(slots@[j as int].unwrap().card.id) == name@);
                return true;
            }
        }
        j = j + 1;
    }
    false
}

/// The outcomes of attack `idx` of `actor`'s active Pokémon: `None` when its
/// mechanic is not implemented, else one certain outcome that first runs the
/// additional effect, then deals the planned hits to the opponent's slots.
pub fn forecast_attack(actor: usize, state: &State, idx: usize) -> (r: Option<(Probabilities, Mutations)>)
    requires
        actor < 2,
        state.in_play_pokemon[actor as int][0] is Some,
    ensures
        exists|m: Option<Mechanic>| {
            &&& spec_attack_mechanic(state.in_play_pokemon[actor as int][0].unwrap().card.id, idx as int, m)
            &&& match attack_plan(*state, actor as int, idx as int, m) {
                None => r is None,
                Some((targets, effect)) => r matches Some(o) && {
                    &&& o.0@ == seq![certain()]
                    &&& o.1@.len() == 1
                    &&& o.1@[0].targets@ == targets
                    &&& o.1@[0].additional_effect == effect
                },
            }
        },
{
    let card = match &state.in_play_pokemon[actor][0] {
        Some(pc) => pc.card,
        None => { return None; },
    };
    let base = card.attack_damage(idx);
    let mechanic = card.attack_mechanic(idx);
    let r = match &mechanic {
        None => Some(active_damage_doutcome(base)),
        Some(Mechanic::SelfDiscardEnergy { energies }) => {
            if energies.len() == 1 {
                Some(active_damage_effect_doutcome(base, FnMutation::SelfDiscardEnergy(energies[0])))
            } else {
                None
            }
        },
        Some(Mechanic::BenchCountDamage { include_fixed_damage, damage_per, energy_type, bench_side }) => {
            let own = count_bench(&state.in_play_pokemon[actor], *energy_type);
            let theirs = count_bench(&state.in_play_pokemon[1 - actor], *energy_type);
            let count: u64 = match bench_side {
                BenchSide::YourBench => own as u64,
                BenchSide::OpponentBench => theirs as u64,
                BenchSide::BothBenches => own as u64 + theirs as u64,
            };
            let fixed: u64 = if *include_fixed_damage { base as u64 } else { 0 };
            let per: u64 = *damage_per as u64;
            assert(count <= 6);
            assert(per * count <= 0xffff_ffff * 6) by (nonlinear_arith)
                requires
                    per <= 0xffff_ffff,
                    count <= 6,
            ;
            let total: u64 = fixed + per * count;
            let damage: u32 = if total > u32::MAX as u64 { u32::MAX } else { total as u32 };
            Some(active_damage_doutcome(damage))
        },
        Some(Mechanic::SwitchSelfWithBench) => Some(active_damage_effect_doutcome(base, FnMutation::SwitchSelfWithBench)),
        Some(Mechanic::RequireBenchPokemonAndDiscardAllEnergy { .. }) => Some(
            active_damage_effect_doutcome(base, FnMutation::SelfDiscardAllEnergy),
        ),
        Some(Mechanic::AlsoBenchDamageIfPokemonOnBench { pokemon_name, damage }) => {
            if has_named_bench(&state.in_play_pokemon[actor], pokemon_name) {
                let mut targets: Vec<(u32, usize)> = Vec::new();
                targets.push((base, 0));
                targets.push((*damage, 1));
                targets.push((*damage, 2));
                targets.push((*damage, 3));
                assert(targets@ =~= active_and_bench(base, *damage));
                Some(damage_effect_doutcome(targets, FnMutation::NoEffect))
            } else {
                Some(active_damage_doutcome(base))
            }
        },
        Some(Mechanic::DamageAndCardEffect { opponent, effect, duration, coin_flip }) => match effect {
            CardEffect::CounterattackDamage(d) => if !*opponent && !*coin_flip {
                Some(active_damage_effect_doutcome(base, FnMutation::SelfCounterattack { damage: *d, turns: *duration }))
            } else {
                None
            },
            _ => None,
        },
        Some(Mechanic::CoinFlipSwitchInOpponentBench) => Some(
            active_damage_effect_doutcome(base, FnMutation::CoinFlipSwitchInOpponentBench),
        ),
        _ => None,
    };
    assert(attack_plan(*state, actor as int, idx as int, mechanic) == mechanic_plan(*state, actor as int, base, mechanic));
    r
}

} // verus!

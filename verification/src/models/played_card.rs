use vstd::prelude::*;

use crate::actions::abilities::AbilityMechanic;
use crate::effects::CardEffect;
use crate::models::card::{spec_hp, spec_name, spec_stage, spec_trainer_type, Card, CardId, EnergyType, StatusCondition, TrainerType};

verus! {

/// A Pokémon (or fossil) that is in play, with everything attached to it.
#[derive(Debug, Clone, PartialEq, Eq, Hash)]
pub struct PlayedCard {
    pub card: Card,
    pub remaining_hp: u32,
    pub total_hp: u32,
    pub attached_energy: Vec<EnergyType>,
    pub attached_tool: Option<Card>,
    pub played_this_turn: bool,
    pub ability_used: bool,
    pub poisoned: bool,
    pub paralyzed: bool,
    pub asleep: bool,
    pub burned: bool,
    pub confused: bool,
    /// The cards this Pokémon evolved from, oldest first.
    pub cards_behind: Vec<Card>,
    /// Effects on this Pokémon with the number of further turns they last.
    pub effects: Vec<(CardEffect, u8)>,
}

/// The ability of a card, if it has one.
pub open spec fn spec_ability(id: CardId) -> Option<AbilityMechanic> {
    match id {
        CardId::A2a071ArceusEx => Some(AbilityMechanic::ImmuneToStatusConditions),
        _ => None,
    }
}

/// The ability mechanic of a card, if it has one.
pub fn get_ability_mechanic(card: &Card) -> (r: Option<AbilityMechanic>)
    ensures
        r == spec_ability(card.id),
{
    match card.id {
        CardId::A2a071ArceusEx => Some(AbilityMechanic::ImmuneToStatusConditions),
        _ => None,
    }
}

/// Whether a card's ability makes it immune to all special conditions.
pub open spec fn spec_immune_to_status(id: CardId) -> bool {
    spec_ability(id) == Some(AbilityMechanic::ImmuneToStatusConditions)
}

/// Whether the card's ability is Soothing Wind.
pub open spec fn spec_has_soothing_wind(id: CardId) -> bool {
    spec_ability(id) == Some(AbilityMechanic::SoothingWind)
}

/// The energy type whose presence grants status immunity through this card's
/// ability, if it has such an ability.
pub open spec fn spec_energy_type_immunity(id: CardId) -> Option<EnergyType> {
    match spec_ability(id) {
        Some(AbilityMechanic::ImmuneToStatusIfHasEnergyType { energy_type }) => Some(energy_type),
        _ => None,
    }
}

/// Whether the card has the Soothing Wind ability.
pub fn has_soothing_wind(card: &Card) -> (r: bool)
    ensures
        r == spec_has_soothing_wind(card.id),
{
    match get_ability_mechanic(card) {
        Some(AbilityMechanic::SoothingWind) => true,
        _ => false,
    }
}

/// The energy type whose presence grants status immunity through this card's
/// ability, if it has such an ability.
pub fn energy_type_immunity(card: &Card) -> (r: Option<EnergyType>)
    ensures
        r == spec_energy_type_immunity(card.id),
{
    match get_ability_mechanic(card) {
        Some(AbilityMechanic::ImmuneToStatusIfHasEnergyType { energy_type }) => Some(energy_type),
        _ => None,
    }
}

/// Whether the card's ability makes it immune to special conditions.
pub fn is_immune_to_status(card: &Card) -> (r: bool)
    ensures
        r == spec_immune_to_status(card.id),
{
    match get_ability_mechanic(card) {
        Some(AbilityMechanic::ImmuneToStatusConditions) => true,
        _ => false,
    }
}

impl PlayedCard {
    pub open spec fn is_fresh(self, card: Card, played_this_turn: bool) -> bool {
        &&& self.card == card
        &&& self.remaining_hp == spec_hp(card.id)
        &&& self.total_hp == spec_hp(card.id)
        &&& self.attached_energy@ == Seq::<EnergyType>::empty()
        &&& self.attached_tool is None
        &&& self.played_this_turn == played_this_turn
        &&& !self.ability_used
        &&& self.no_status()
        &&& self.cards_behind@ == Seq::<Card>::empty()
        &&& self.effects@ == Seq::<(CardEffect, u8)>::empty()
    }

    /// A Pokémon card put into play.
    pub fn new(card: Card, played_this_turn: bool) -> (r: PlayedCard)
        ensures
            r.is_fresh(card, played_this_turn),
    {
        let hp = card.get_hp();
        PlayedCard {
            card,
            remaining_hp: hp,
            total_hp: hp,
            attached_energy: Vec::new(),
            attached_tool: None,
            played_this_turn,
            ability_used: false,
            poisoned: false,
            paralyzed: false,
            asleep: false,
            burned: false,
            confused: false,
            cards_behind: Vec::new(),
            effects: Vec::new(),
        }
    }

    /// The Pokémon with this identifier, put into play on an earlier turn.
    pub fn from_id(id: CardId) -> (r: PlayedCard)
        ensures
            r.is_fresh(Card { id }, false),
    {
        PlayedCard::new(Card { id }, false)
    }

    /// The same Pokémon with these energies attached (in place of any).
    pub fn with_energy(self, energies: Vec<EnergyType>) -> (r: PlayedCard)
        ensures
            r == (PlayedCard { attached_energy: energies, ..self }),
    {
        PlayedCard { attached_energy: energies, ..self }
    }

    /// The printed name of the card.
    pub fn get_name(&self) -> (r: String)
        ensures
            r@ == spec_name(self.card.id),
    {
        self.card.get_name()
    }

    /// Remaining hit points.
    pub fn get_remaining_hp(&self) -> (r: u32)
        ensures
            r == self.remaining_hp,
    {
        self.remaining_hp
    }

    /// Energy type of the card in play.
    pub fn get_energy_type(&self) -> (r: Option<EnergyType>)
        ensures
            r == crate::models::card::spec_energy_type(self.card.id),
    {
        self.card.get_energy_type()
    }

    /// Whether the card in play is a fossil (a trainer played as a Pokémon).
    pub fn is_fossil(&self) -> (r: bool)
        ensures
            r == (spec_trainer_type(self.card.id) == Some(TrainerType::Fossil)),
    {
        match self.card.trainer_type() {
            Some(TrainerType::Fossil) => true,
            _ => false,
        }
    }

    pub open spec fn no_status(self) -> bool {
        !self.poisoned && !self.paralyzed && !self.asleep && !self.burned && !self.confused
    }

    pub open spec fn has_status(self, status: StatusCondition) -> bool {
        match status {
            StatusCondition::Asleep => self.asleep,
            StatusCondition::Paralyzed => self.paralyzed,
            StatusCondition::Poisoned => self.poisoned,
            StatusCondition::Burned => self.burned,
            StatusCondition::Confused => self.confused,
        }
    }

    pub fn is_poisoned(&self) -> (r: bool)
        ensures
            r == self.poisoned,
    {
        self.poisoned
    }

    pub fn is_burned(&self) -> (r: bool)
        ensures
            r == self.burned,
    {
        self.burned
    }

    pub fn is_paralyzed(&self) -> (r: bool)
        ensures
            r == self.paralyzed,
    {
        self.paralyzed
    }

    pub fn is_asleep(&self) -> (r: bool)
        ensures
            r == self.asleep,
    {
        self.asleep
    }

    pub fn is_confused(&self) -> (r: bool)
        ensures
            r == self.confused,
    {
        self.confused
    }

    /// The Pokémon after `status` is set on it, with no immunity check:
    /// Asleep, Paralyzed and Confused replace one another; Poisoned and Burned
    /// stack with any condition.
    pub open spec fn with_status(self, status: StatusCondition) -> PlayedCard {
        match status {
            StatusCondition::Poisoned => PlayedCard { poisoned: true, ..self },
            StatusCondition::Burned => PlayedCard { burned: true, ..self },
            StatusCondition::Asleep => PlayedCard { asleep: true, paralyzed: false, confused: false, ..self },
            StatusCondition::Paralyzed => PlayedCard { asleep: false, paralyzed: true, confused: false, ..self },
            StatusCondition::Confused => PlayedCard { asleep: false, paralyzed: false, confused: true, ..self },
        }
    }

    /// Sets a special condition without any immunity check.
    pub fn set_status_raw(&mut self, status: StatusCondition)
        ensures
            *final(self) == old(self).with_status(status),
    {
        match status {
            StatusCondition::Poisoned => {
                self.poisoned = true;
            },
            StatusCondition::Burned => {
                self.burned = true;
            },
            StatusCondition::Asleep => {
                self.asleep = true;
                self.paralyzed = false;
                self.confused = false;
            },
            StatusCondition::Paralyzed => {
                self.asleep = false;
                self.paralyzed = true;
                self.confused = false;
            },
            StatusCondition::Confused => {
                self.asleep = false;
                self.paralyzed = false;
                self.confused = true;
            },
        }
    }

    /// The Pokémon with all special conditions removed.
    pub open spec fn cured(self) -> PlayedCard {
        PlayedCard { poisoned: false, paralyzed: false, asleep: false, burned: false, confused: false, ..self }
    }

    /// Removes every special condition.
    pub fn cure_status_conditions(&mut self)
        ensures
            *final(self) == old(self).cured(),
    {
        self.poisoned = false;
        self.paralyzed = false;
        self.asleep = false;
        self.burned = false;
        self.confused = false;
    }

    /// Whether the given tool is attached.
    pub open spec fn has_tool_spec(self, tool: CardId) -> bool {
        self.attached_tool == Some(Card { id: tool })
    }

    /// Whether the given tool is attached.
    pub fn has_tool(&self, tool: CardId) -> (r: bool)
        ensures
            r == self.has_tool_spec(tool),
    {
        match self.attached_tool {
            Some(t) => t.id == tool,
            None => false,
        }
    }

    /// Whether the Pokémon itself is protected from special conditions, by its
    /// own ability or by an attached Steel Apron.
    pub open spec fn self_status_immune(self) -> bool {
        spec_immune_to_status(self.card.id) || self.has_tool_spec(CardId::A4153SteelApron)
    }

    /// Applies a special condition unless the Pokémon is protected from it by its
    /// own ability or by an attached Steel Apron.
    pub fn apply_status_condition(&mut self, status: StatusCondition)
        ensures
            old(self).self_status_immune() ==> *final(self) == *old(self),
            !old(self).self_status_immune() ==> *final(self) == old(self).with_status(status),
    {
        if is_immune_to_status(&self.card) {
            return;
        }
        if self.has_tool(CardId::A4153SteelApron) {
            return;
        }
        self.set_status_raw(status);
    }

    /// Whether this Pokémon is a basic Pokémon.
    pub open spec fn is_basic_spec(self) -> bool {
        spec_trainer_type(self.card.id) is None && spec_stage(self.card.id) == 0
    }

    /// The effects that remain after a turn ends: each loses one turn, and
    /// those with no turn left are dropped (order is kept).
    pub open spec fn decay_effects(s: Seq<(CardEffect, u8)>) -> Seq<(CardEffect, u8)>
        decreases s.len(),
    {
        if s.len() == 0 {
            s
        } else {
            let rest = Self::decay_effects(s.drop_last());
            let last = s.last();
            if last.1 > 0 {
                rest.push((last.0, (last.1 - 1) as u8))
            } else {
                rest
            }
        }
    }

    /// Whether `self` is `old` after the end-of-turn maintenance.
    pub open spec fn is_maintained_from(self, old: PlayedCard) -> bool {
        &&& self.effects@ == Self::decay_effects(old.effects@)
        &&& self == (PlayedCard {
            played_this_turn: false,
            ability_used: false,
            effects: self.effects,
            ..old
        })
    }

    /// End-of-turn maintenance: the Pokémon is no longer new this turn, its
    /// ability can be used again, and its effects lose one turn.
    pub fn end_turn_maintenance(&mut self)
        ensures
            final(self).is_maintained_from(*old(self)),
    {
        let mut kept: Vec<(CardEffect, u8)> = Vec::new();
        let mut i: usize = 0;
        while i < self.effects.len()
            invariant
                i <= self.effects@.len(),
                self.effects == old(self).effects,
                kept@ == Self::decay_effects(self.effects@.take(i as int)),
            decreases self.effects@.len() - i,
        {
            let effect = self.effects[i].0.clone();
            let turns = self.effects[i].1;
            proof {
                assert(self.effects@.take(i + 1).drop_last() == self.effects@.take(i as int));
            }
            if turns > 0 {
                kept.push((effect, turns - 1));
            }
            i = i + 1;
        }
        assert(self.effects@.take(self.effects@.len() as int) == self.effects@);
        self.effects = kept;
        self.played_this_turn = false;
        self.ability_used = false;
    }

    /// The effects currently on this Pokémon.
    pub fn get_active_effects(&self) -> (r: Vec<CardEffect>)
        ensures
            r@ == self.effects@.map_values(|p: (CardEffect, u8)| p.0),
    {
        let mut out: Vec<CardEffect> = Vec::new();
        let mut i: usize = 0;
        while i < self.effects.len()
            invariant
                i <= self.effects@.len(),
                out@ == self.effects@.take(i as int).map_values(|p: (CardEffect, u8)| p.0),
            decreases self.effects@.len() - i,
        {
            out.push(self.effects[i].0.clone());
            proof {
                assert(self.effects@.take(i + 1).map_values(|p: (CardEffect, u8)| p.0)
                    =~= self.effects@.take(i as int).map_values(|p: (CardEffect, u8)| p.0).push(self.effects@[i as int].0));
            }
            i = i + 1;
        }
        assert(self.effects@.take(self.effects@.len() as int) == self.effects@);
        out
    }

    /// Whether `self` and `other` hold the same data (the same contents in
    /// each vector).
    pub open spec fn same_as(self, other: PlayedCard) -> bool {
        &&& self.card == other.card
        &&& self.remaining_hp == other.remaining_hp
        &&& self.total_hp == other.total_hp
        &&& self.attached_energy@ == other.attached_energy@
        &&& self.attached_tool == other.attached_tool
        &&& self.played_this_turn == other.played_this_turn
        &&& self.ability_used == other.ability_used
        &&& self.poisoned == other.poisoned
        &&& self.paralyzed == other.paralyzed
        &&& self.asleep == other.asleep
        &&& self.burned == other.burned
        &&& self.confused == other.confused
        &&& self.cards_behind@ == other.cards_behind@
        &&& self.effects@ == other.effects@
    }

    /// A copy holding the same data.
    pub fn copy(&self) -> (r: PlayedCard)
        ensures
            r.same_as(*self),
    {
        let mut attached_energy: Vec<EnergyType> = Vec::new();
        let mut i: usize = 0;
        while i < self.attached_energy.len()
            invariant
                i <= self.attached_energy@.len(),
                attached_energy@ == self.attached_energy@.take(i as int),
            decreases self.attached_energy@.len() - i,
        {
            attached_energy.push(self.attached_energy[i]);
            i = i + 1;
        }
        assert(attached_energy@ == self.attached_energy@.take(self.attached_energy@.len() as int));
        let mut cards_behind: Vec<Card> = Vec::new();
        let mut j: usize = 0;
        while j < self.cards_behind.len()
            invariant
                j <= self.cards_behind@.len(),
                cards_behind@ == self.cards_behind@.take(j as int),
                attached_energy@ == self.attached_energy@,
            decreases self.cards_behind@.len() - j,
        {
            cards_behind.push(self.cards_behind[j]);
            j = j + 1;
        }
        assert(cards_behind@ == self.cards_behind@.take(self.cards_behind@.len() as int));
        let mut effects: Vec<(CardEffect, u8)> = Vec::new();
        let mut k: usize = 0;
        while k < self.effects.len()
            invariant
                k <= self.effects@.len(),
                effects@ == self.effects@.take(k as int),
                attached_energy@ == self.attached_energy@,
                cards_behind@ == self.cards_behind@,
            decreases self.effects@.len() - k,
        {
            let e = self.effects[k].0.clone();
            effects.push((e, self.effects[k].1));
            assert(effects@ =~= self.effects@.take(k + 1));
            k = k + 1;
        }
        assert(effects@ == self.effects@.take(self.effects@.len() as int));
        assert(effects@ == self.effects@);
        assert(cards_behind@ == self.cards_behind@);
        assert(attached_energy@ == self.attached_energy@);
        PlayedCard {
            card: self.card,
            remaining_hp: self.remaining_hp,
            total_hp: self.total_hp,
            attached_energy,
            attached_tool: self.attached_tool,
            played_this_turn: self.played_this_turn,
            ability_used: self.ability_used,
            poisoned: self.poisoned,
            paralyzed: self.paralyzed,
            asleep: self.asleep,
            burned: self.burned,
            confused: self.confused,
            cards_behind,
            effects,
        }
    }
}

} // verus!

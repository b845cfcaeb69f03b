use vstd::prelude::*;

use crate::actions::abilities::AbilityMechanic;
use crate::actions::attacks::{BenchSide, Mechanic};
use crate::effects::CardEffect;

verus! {

/// The ten energy types of the game.
#[derive(Debug, Clone, Copy, PartialEq, Eq, Hash, Structural)]
pub enum EnergyType {
    Grass,
    Fire,
    Water,
    Lightning,
    Psychic,
    Fighting,
    Darkness,
    Metal,
    Dragon,
    Colorless,
}

/// Special conditions that can affect a Pokémon in play.
#[derive(Debug, Clone, Copy, PartialEq, Eq, Hash, Structural)]
pub enum StatusCondition {
    Asleep,
    Paralyzed,
    Poisoned,
    Burned,
    Confused,
}

/// The kinds of trainer cards.
#[derive(Debug, Clone, Copy, PartialEq, Eq, Hash, Structural)]
pub enum TrainerType {
    Supporter,
    Item,
    Tool,
    Stadium,
    Fossil,
}

/// The stage of a basic Pokémon.
pub const BASIC_STAGE: u8 = 0;

/// Identifiers of the cards known to the card database.
#[derive(Debug, Clone, Copy, PartialEq, Eq, Hash, Structural)]
pub enum CardId {
    A1001Bulbasaur,
    A1002Ivysaur,
    A1033Charmander,
    A1094Pikachu,
    A2a071ArceusEx,
    A3166TapuKoko,
    A4b122Wishiwashi,
    A4b124WishiwashiEx,
    B2165Minun,
    A2058Uxie,
    A2059Mesprit,
    A2060Azelf,
    B2052Plusle,
    B1047Turtonator,
    A4b026Cherubi,
    PA095Chinchou,
    PA001Potion,
    PA007ProfessorsResearch,
    A3b067Leftovers,
    A4153SteelApron,
}

/// A card. Every card is fully described by its identifier: all of its
/// printed data comes from the card database.
#[derive(Debug, Clone, Copy, PartialEq, Eq, Hash, Structural)]
pub struct Card {
    pub id: CardId,
}

/// An attack printed on a Pokémon card.
#[derive(Debug, Clone, PartialEq)]
pub struct Attack {
    pub title: String,
    pub fixed_damage: u32,
    pub energy_required: Vec<EnergyType>,
    pub effect: Option<String>,
}

/// An ability printed on a Pokémon card.
#[derive(Debug, Clone, PartialEq)]
pub struct Ability {
    pub title: String,
    pub mechanic: AbilityMechanic,
}

// ---------------------------------------------------------------------------
// Card database: the printed data of each card, as spec functions and as
// executable getters proved equal to them.
// ---------------------------------------------------------------------------

/// The trainer type of a trainer card; `None` for Pokémon.
pub open spec fn spec_trainer_type(id: CardId) -> Option<TrainerType> {
    match id {
        CardId::PA001Potion => Some(TrainerType::Item),
        CardId::PA007ProfessorsResearch => Some(TrainerType::Supporter),
        CardId::A3b067Leftovers => Some(TrainerType::Tool),
        CardId::A4153SteelApron => Some(TrainerType::Tool),
        _ => None,
    }
}

/// Printed HP of a Pokémon card (0 for trainers).
pub open spec fn spec_hp(id: CardId) -> u32 {
    match id {
        CardId::A1001Bulbasaur => 70,
        CardId::A1002Ivysaur => 90,
        CardId::A1033Charmander => 60,
        CardId::A1094Pikachu => 60,
        CardId::A2a071ArceusEx => 140,
        CardId::A3166TapuKoko => 90,
        CardId::A4b122Wishiwashi => 40,
        CardId::A4b124WishiwashiEx => 130,
        CardId::B2165Minun => 60,
        CardId::A2058Uxie => 70,
        CardId::A2059Mesprit => 70,
        CardId::A2060Azelf => 70,
        CardId::B2052Plusle => 60,
        CardId::B1047Turtonator => 110,
        CardId::A4b026Cherubi => 50,
        CardId::PA095Chinchou => 60,
        _ => 0,
    }
}

/// Evolution stage (0 basic, 1 stage 1, 2 stage 2); 0 for trainers.
pub open spec fn spec_stage(id: CardId) -> u8 {
    match id {
        CardId::A1002Ivysaur => 1,
        _ => 0,
    }
}

/// The energy type of a Pokémon card; `None` for trainers.
pub open spec fn spec_energy_type(id: CardId) -> Option<EnergyType> {
    match id {
        CardId::A1001Bulbasaur => Some(EnergyType::Grass),
        CardId::A1002Ivysaur => Some(EnergyType::Grass),
        CardId::A1033Charmander => Some(EnergyType::Fire),
        CardId::A1094Pikachu => Some(EnergyType::Lightning),
        CardId::A2a071ArceusEx => Some(EnergyType::Colorless),
        CardId::A3166TapuKoko => Some(EnergyType::Lightning),
        CardId::A4b122Wishiwashi => Some(EnergyType::Water),
        CardId::A4b124WishiwashiEx => Some(EnergyType::Water),
        CardId::B2165Minun => Some(EnergyType::Lightning),
        CardId::A2058Uxie => Some(EnergyType::Psychic),
        CardId::A2059Mesprit => Some(EnergyType::Psychic),
        CardId::A2060Azelf => Some(EnergyType::Psychic),
        CardId::B2052Plusle => Some(EnergyType::Lightning),
        CardId::B1047Turtonator => Some(EnergyType::Fire),
        CardId::A4b026Cherubi => Some(EnergyType::Grass),
        CardId::PA095Chinchou => Some(EnergyType::Lightning),
        _ => None,
    }
}

/// The weakness of a Pokémon card, if any.
pub open spec fn spec_weakness(id: CardId) -> Option<EnergyType> {
    match id {
        CardId::A1001Bulbasaur => Some(EnergyType::Fire),
        CardId::A1002Ivysaur => Some(EnergyType::Fire),
        CardId::A1033Charmander => Some(EnergyType::Water),
        CardId::A1094Pikachu => Some(EnergyType::Fighting),
        CardId::A2a071ArceusEx => Some(EnergyType::Fighting),
        CardId::A3166TapuKoko => Some(EnergyType::Fighting),
        CardId::A4b122Wishiwashi => Some(EnergyType::Lightning),
        CardId::A4b124WishiwashiEx => Some(EnergyType::Lightning),
        CardId::B2165Minun => Some(EnergyType::Fighting),
        CardId::A2058Uxie => Some(EnergyType::Darkness),
        CardId::A2059Mesprit => Some(EnergyType::Darkness),
        CardId::A2060Azelf => Some(EnergyType::Darkness),
        CardId::B2052Plusle => Some(EnergyType::Fighting),
        CardId::B1047Turtonator => Some(EnergyType::Water),
        CardId::A4b026Cherubi => Some(EnergyType::Fire),
        CardId::PA095Chinchou => Some(EnergyType::Fighting),
        _ => None,
    }
}

/// Whether the card is a Pokémon ex.
pub open spec fn spec_is_ex(id: CardId) -> bool {
    match id {
        CardId::A2a071ArceusEx => true,
        CardId::A4b124WishiwashiEx => true,
        _ => false,
    }
}

/// Number of energies in the printed retreat cost.
pub open spec fn spec_retreat_cost(id: CardId) -> nat {
    match id {
        CardId::A1002Ivysaur => 2,
        CardId::A2a071ArceusEx => 2,
        CardId::A4b124WishiwashiEx => 2,
        CardId::B1047Turtonator => 2,
        CardId::PA001Potion => 0,
        CardId::PA007ProfessorsResearch => 0,
        CardId::A3b067Leftovers => 0,
        CardId::A4153SteelApron => 0,
        _ => 1,
    }
}

/// Whether the card carries an ability.
pub open spec fn spec_has_ability(id: CardId) -> bool {
    match id {
        CardId::A2a071ArceusEx => true,
        _ => false,
    }
}

/// Number of attacks printed on the card.
pub open spec fn spec_num_attacks(id: CardId) -> nat {
    match id {
        CardId::A1001Bulbasaur => 1,
        CardId::A1002Ivysaur => 1,
        CardId::A1033Charmander => 1,
        CardId::A1094Pikachu => 1,
        CardId::A2a071ArceusEx => 1,
        CardId::A3166TapuKoko => 1,
        CardId::A4b122Wishiwashi => 1,
        CardId::A4b124WishiwashiEx => 1,
        CardId::B2165Minun => 1,
        CardId::A2058Uxie => 1,
        CardId::A2059Mesprit => 1,
        CardId::A2060Azelf => 1,
        CardId::B2052Plusle => 1,
        CardId::B1047Turtonator => 1,
        CardId::A4b026Cherubi => 1,
        CardId::PA095Chinchou => 1,
        _ => 0,
    }
}

/// Printed damage of attack `i` of the card.
pub open spec fn spec_attack_damage(id: CardId, i: int) -> u32 {
    if i != 0 {
        0
    } else {
        match id {
            CardId::A1001Bulbasaur => 40,
            CardId::A1002Ivysaur => 60,
            CardId::A1033Charmander => 30,
            CardId::A1094Pikachu => 20,
            CardId::A2a071ArceusEx => 70,
            CardId::A3166TapuKoko => 70,
            CardId::A4b122Wishiwashi => 10,
            CardId::A4b124WishiwashiEx => 30,
            CardId::B2165Minun => 30,
            CardId::A2058Uxie => 20,
            CardId::A2059Mesprit => 200,
            CardId::A2060Azelf => 20,
            CardId::B2052Plusle => 30,
            CardId::B1047Turtonator => 40,
            CardId::A4b026Cherubi => 20,
            CardId::PA095Chinchou => 0,
            _ => 0,
        }
    }
}

/// Energy cost of attack `i` of the card.
pub open spec fn spec_attack_cost(id: CardId, i: int) -> Seq<EnergyType> {
    if i != 0 {
        seq![]
    } else {
        match id {
            CardId::A1001Bulbasaur => seq![EnergyType::Grass, EnergyType::Colorless],
            CardId::A1002Ivysaur => seq![EnergyType::Grass, EnergyType::Colorless, EnergyType::Colorless],
            CardId::A1033Charmander => seq![EnergyType::Fire],
            CardId::A1094Pikachu => seq![EnergyType::Lightning],
            CardId::A2a071ArceusEx => seq![EnergyType::Colorless, EnergyType::Colorless, EnergyType::Colorless],
            CardId::A3166TapuKoko => seq![EnergyType::Lightning, EnergyType::Colorless],
            CardId::A4b122Wishiwashi => seq![EnergyType::Water],
            CardId::A4b124WishiwashiEx => seq![EnergyType::Water, EnergyType::Water],
            CardId::B2165Minun => seq![EnergyType::Lightning],
            CardId::A2058Uxie => seq![EnergyType::Psychic],
            CardId::A2059Mesprit => seq![EnergyType::Psychic, EnergyType::Psychic, EnergyType::Colorless],
            CardId::A2060Azelf => seq![EnergyType::Psychic],
            CardId::B2052Plusle => seq![EnergyType::Lightning],
            CardId::B1047Turtonator => seq![EnergyType::Fire, EnergyType::Colorless],
            CardId::A4b026Cherubi => seq![EnergyType::Grass],
            CardId::PA095Chinchou => seq![EnergyType::Lightning],
            _ => seq![],
        }
    }
}

/// The printed name of a card.
pub open spec fn spec_name(id: CardId) -> Seq<char> {
    match id {
        CardId::A1001Bulbasaur => "Bulbasaur"@,
        CardId::A1002Ivysaur => "Ivysaur"@,
        CardId::A1033Charmander => "Charmander"@,
        CardId::A1094Pikachu => "Pikachu"@,
        CardId::A2a071ArceusEx => "Arceus ex"@,
        CardId::A3166TapuKoko => "Tapu Koko"@,
        CardId::A4b122Wishiwashi => "Wishiwashi"@,
        CardId::A4b124WishiwashiEx => "Wishiwashi ex"@,
        CardId::B2165Minun => "Minun"@,
        CardId::A2058Uxie => "Uxie"@,
        CardId::A2059Mesprit => "Mesprit"@,
        CardId::A2060Azelf => "Azelf"@,
        CardId::B2052Plusle => "Plusle"@,
        CardId::B1047Turtonator => "Turtonator"@,
        CardId::A4b026Cherubi => "Cherubi"@,
        CardId::PA095Chinchou => "Chinchou"@,
        CardId::PA001Potion => "Potion"@,
        CardId::PA007ProfessorsResearch => "Professor's Research"@,
        CardId::A3b067Leftovers => "Leftovers"@,
        CardId::A4153SteelApron => "Steel Apron"@,
    }
}

/// The printed set and number of a card, as in "A1 001".
pub open spec fn spec_card_number(id: CardId) -> Seq<char> {
    match id {
        CardId::A1001Bulbasaur => "A1 001"@,
        CardId::A1002Ivysaur => "A1 002"@,
        CardId::A1033Charmander => "A1 033"@,
        CardId::A1094Pikachu => "A1 094"@,
        CardId::A2a071ArceusEx => "A2a 071"@,
        CardId::A3166TapuKoko => "A3 166"@,
        CardId::A4b122Wishiwashi => "A4b 122"@,
        CardId::A4b124WishiwashiEx => "A4b 124"@,
        CardId::B2165Minun => "B2 165"@,
        CardId::A2058Uxie => "A2 058"@,
        CardId::A2059Mesprit => "A2 059"@,
        CardId::A2060Azelf => "A2 060"@,
        CardId::B2052Plusle => "B2 052"@,
        CardId::B1047Turtonator => "B1 047"@,
        CardId::A4b026Cherubi => "A4b 026"@,
        CardId::PA095Chinchou => "P-A 095"@,
        CardId::PA001Potion => "P-A 001"@,
        CardId::PA007ProfessorsResearch => "P-A 007"@,
        CardId::A3b067Leftovers => "A3b 067"@,
        CardId::A4153SteelApron => "A4 153"@,
    }
}

/// Title of attack `i` of the card.
pub open spec fn spec_attack_title(id: CardId, i: int) -> Seq<char> {
    if i != 0 {
        Seq::empty()
    } else {
        match id {
            CardId::A1001Bulbasaur => "Vine Whip"@,
            CardId::A1002Ivysaur => "Razor Leaf"@,
            CardId::A1033Charmander => "Ember"@,
            CardId::A1094Pikachu => "Gnaw"@,
            CardId::A2a071ArceusEx => "Ultimate Force"@,
            CardId::A3166TapuKoko => "Volt Switch"@,
            CardId::A4b122Wishiwashi => "Splash"@,
            CardId::A4b124WishiwashiEx => "School Storm"@,
            CardId::B2165Minun => "Minus Spark"@,
            CardId::A2058Uxie => "Mind Blast"@,
            CardId::A2059Mesprit => "Supreme Blast"@,
            CardId::A2060Azelf => "Psy Tackle"@,
            CardId::B2052Plusle => "Plus Spark"@,
            CardId::B1047Turtonator => "Shell Trap"@,
            CardId::A4b026Cherubi => "Sweets Relay"@,
            CardId::PA095Chinchou => "Luring Glow"@,
            _ => Seq::empty(),
        }
    }
}

/// Effect text of attack `i` of the card, if it has one.
pub open spec fn spec_attack_effect(id: CardId, i: int) -> Option<Seq<char>> {
    if i != 0 {
        None
    } else {
        match id {
            CardId::A1033Charmander => Some("Discard a Fire Energy from this Pokémon."@),
            CardId::A2a071ArceusEx => Some("This attack does 20 more damage for each of your Benched Pokémon."@),
            CardId::A3166TapuKoko => Some("Switch this Pokémon with 1 of your Benched Pokémon."@),
            CardId::A4b124WishiwashiEx => Some("This attack does 40 more damage for each of your Benched Water Pokémon."@),
            CardId::A2059Mesprit => Some("You can use this attack only if you have Uxie and Azelf on your Bench. Discard all Energy from this Pokémon."@),
            CardId::B2165Minun => Some("If Plusle is on your Bench, this attack also does 10 damage to each of your opponent's Benched Pokémon."@),
            CardId::B1047Turtonator => Some("During your opponent's next turn, if this Pokémon is damaged by an attack, do 40 damage to the Attacking Pokémon."@),
            CardId::A4b026Cherubi => Some("If this Pokémon has a Pokémon Tool attached, this attack costs 1 less Grass Energy."@),
            CardId::PA095Chinchou => Some("Flip a coin. If heads, switch in 1 of your opponent's Benched Pokémon to the Active Spot."@),
            _ => None,
        }
    }
}

/// The energy that attack `i` of the card costs one less of while the
/// Pokémon has a Pokémon Tool attached, if the attack says so.
pub open spec fn spec_tool_cost_discount(id: CardId, i: int) -> Option<EnergyType> {
    if i == 0 && id == CardId::A4b026Cherubi {
        Some(EnergyType::Grass)
    } else {
        None
    }
}

/// Whether `m` is the mechanic of attack `i` of the card.
pub open spec fn spec_attack_mechanic(id: CardId, i: int, m: Option<Mechanic>) -> bool {
    if i != 0 {
        m is None
    } else {
        match id {
            CardId::A1033Charmander => m matches Some(Mechanic::SelfDiscardEnergy { energies })
                && energies@ == seq![EnergyType::Fire],
            CardId::A2a071ArceusEx => m == Some(Mechanic::BenchCountDamage {
                include_fixed_damage: true,
                damage_per: 20,
                energy_type: None,
                bench_side: BenchSide::YourBench,
            }),
            CardId::A3166TapuKoko => m == Some(Mechanic::SwitchSelfWithBench),
            CardId::A4b124WishiwashiEx => m == Some(Mechanic::BenchCountDamage {
                include_fixed_damage: true,
                damage_per: 40,
                energy_type: Some(EnergyType::Water),
                bench_side: BenchSide::YourBench,
            }),
            CardId::A2059Mesprit => m matches Some(Mechanic::RequireBenchPokemonAndDiscardAllEnergy { required_pokemon })
                && required_pokemon@.len() == 2
                && required_pokemon@[0]@ == "Uxie"@
                && required_pokemon@[1]@ == "Azelf"@,
            CardId::B2165Minun => m matches Some(Mechanic::AlsoBenchDamageIfPokemonOnBench { pokemon_name, damage })
                && pokemon_name@ == "Plusle"@ && damage == 10,
            CardId::B1047Turtonator => m == Some(Mechanic::DamageAndCardEffect {
                opponent: false,
                effect: CardEffect::CounterattackDamage(40),
                duration: 1,
                coin_flip: false,
            }),
            CardId::PA095Chinchou => m == Some(Mechanic::CoinFlipSwitchInOpponentBench),
            _ => m is None,
        }
    }
}

impl Card {
    /// The printed set and number, as in "A1 001".
    pub fn get_id(&self) -> (r: String)
        ensures
            r@ == spec_card_number(self.id),
    {
        let number: &str = match self.id {
            CardId::A1001Bulbasaur => "A1 001",
            CardId::A1002Ivysaur => "A1 002",
            CardId::A1033Charmander => "A1 033",
            CardId::A1094Pikachu => "A1 094",
            CardId::A2a071ArceusEx => "A2a 071",
            CardId::A3166TapuKoko => "A3 166",
            CardId::A4b122Wishiwashi => "A4b 122",
            CardId::A4b124WishiwashiEx => "A4b 124",
            CardId::B2165Minun => "B2 165",
            CardId::A2058Uxie => "A2 058",
            CardId::A2059Mesprit => "A2 059",
            CardId::A2060Azelf => "A2 060",
            CardId::B2052Plusle => "B2 052",
            CardId::B1047Turtonator => "B1 047",
            CardId::A4b026Cherubi => "A4b 026",
            CardId::PA095Chinchou => "P-A 095",
            CardId::PA001Potion => "P-A 001",
            CardId::PA007ProfessorsResearch => "P-A 007",
            CardId::A3b067Leftovers => "A3b 067",
            CardId::A4153SteelApron => "A4 153",
        };
        number.to_owned()
    }

    /// The printed name.
    pub fn get_name(&self) -> (r: String)
        ensures
            r@ == spec_name(self.id),
    {
        let name: &str = match self.id {
            CardId::A1001Bulbasaur => "Bulbasaur",
            CardId::A1002Ivysaur => "Ivysaur",
            CardId::A1033Charmander => "Charmander",
            CardId::A1094Pikachu => "Pikachu",
            CardId::A2a071ArceusEx => "Arceus ex",
            CardId::A3166TapuKoko => "Tapu Koko",
            CardId::A4b122Wishiwashi => "Wishiwashi",
            CardId::A4b124WishiwashiEx => "Wishiwashi ex",
            CardId::B2165Minun => "Minun",
            CardId::A2058Uxie => "Uxie",
            CardId::A2059Mesprit => "Mesprit",
            CardId::A2060Azelf => "Azelf",
            CardId::B2052Plusle => "Plusle",
            CardId::B1047Turtonator => "Turtonator",
            CardId::A4b026Cherubi => "Cherubi",
            CardId::PA095Chinchou => "Chinchou",
            CardId::PA001Potion => "Potion",
            CardId::PA007ProfessorsResearch => "Professor's Research",
            CardId::A3b067Leftovers => "Leftovers",
            CardId::A4153SteelApron => "Steel Apron",
        };
        name.to_owned()
    }

    pub open spec fn is_pokemon_spec(self) -> bool {
        spec_trainer_type(self.id) is None
    }

    /// Whether this is a Pokémon card.
    pub fn is_pokemon(&self) -> (r: bool)
        ensures
            r == self.is_pokemon_spec(),
    {
        self.trainer_type().is_none()
    }

    /// The trainer type of a trainer card, `None` for a Pokémon card.
    pub fn trainer_type(&self) -> (r: Option<TrainerType>)
        ensures
            r == spec_trainer_type(self.id),
    {
        match self.id {
            CardId::PA001Potion => Some(TrainerType::Item),
            CardId::PA007ProfessorsResearch => Some(TrainerType::Supporter),
            CardId::A3b067Leftovers => Some(TrainerType::Tool),
            CardId::A4153SteelApron => Some(TrainerType::Tool),
            _ => None,
        }
    }

    pub open spec fn is_support_spec(self) -> bool {
        spec_trainer_type(self.id) == Some(TrainerType::Supporter)
    }

    /// Whether this is a Supporter card.
    pub fn is_support(&self) -> (r: bool)
        ensures
            r == self.is_support_spec(),
    {
        match self.trainer_type() {
            Some(TrainerType::Supporter) => true,
            _ => false,
        }
    }

    /// Whether this is a basic Pokémon.
    pub open spec fn is_basic_spec(self) -> bool {
        self.is_pokemon_spec() && spec_stage(self.id) == BASIC_STAGE
    }

    /// Printed HP (0 for trainers).
    pub fn get_hp(&self) -> (r: u32)
        ensures
            r == spec_hp(self.id),
    {
        match self.id {
            CardId::A1001Bulbasaur => 70,
            CardId::A1002Ivysaur => 90,
            CardId::A1033Charmander => 60,
            CardId::A1094Pikachu => 60,
            CardId::A2a071ArceusEx => 140,
            CardId::A3166TapuKoko => 90,
            CardId::A4b122Wishiwashi => 40,
            CardId::A4b124WishiwashiEx => 130,
            CardId::B2165Minun => 60,
            CardId::A2058Uxie => 70,
            CardId::A2059Mesprit => 70,
            CardId::A2060Azelf => 70,
            CardId::B2052Plusle => 60,
            CardId::B1047Turtonator => 110,
            CardId::A4b026Cherubi => 50,
            CardId::PA095Chinchou => 60,
            _ => 0,
        }
    }

    /// Evolution stage.
    pub fn get_stage(&self) -> (r: u8)
        ensures
            r == spec_stage(self.id),
    {
        match self.id {
            CardId::A1002Ivysaur => 1,
            _ => 0,
        }
    }

    /// Energy type of a Pokémon card.
    pub fn get_energy_type(&self) -> (r: Option<EnergyType>)
        ensures
            r == spec_energy_type(self.id),
    {
        match self.id {
            CardId::A1001Bulbasaur => Some(EnergyType::Grass),
            CardId::A1002Ivysaur => Some(EnergyType::Grass),
            CardId::A1033Charmander => Some(EnergyType::Fire),
            CardId::A1094Pikachu => Some(EnergyType::Lightning),
            CardId::A2a071ArceusEx => Some(EnergyType::Colorless),
            CardId::A3166TapuKoko => Some(EnergyType::Lightning),
            CardId::A4b122Wishiwashi => Some(EnergyType::Water),
            CardId::A4b124WishiwashiEx => Some(EnergyType::Water),
            CardId::B2165Minun => Some(EnergyType::Lightning),
            CardId::A2058Uxie => Some(EnergyType::Psychic),
            CardId::A2059Mesprit => Some(EnergyType::Psychic),
            CardId::A2060Azelf => Some(EnergyType::Psychic),
            CardId::B2052Plusle => Some(EnergyType::Lightning),
            CardId::B1047Turtonator => Some(EnergyType::Fire),
            CardId::A4b026Cherubi => Some(EnergyType::Grass),
            CardId::PA095Chinchou => Some(EnergyType::Lightning),
            _ => None,
        }
    }

    /// Weakness of a Pokémon card.
    pub fn get_weakness(&self) -> (r: Option<EnergyType>)
        ensures
            r == spec_weakness(self.id),
    {
        match self.id {
            CardId::A1001Bulbasaur => Some(EnergyType::Fire),
            CardId::A1002Ivysaur => Some(EnergyType::Fire),
            CardId::A1033Charmander => Some(EnergyType::Water),
            CardId::A1094Pikachu => Some(EnergyType::Fighting),
            CardId::A2a071ArceusEx => Some(EnergyType::Fighting),
            CardId::A3166TapuKoko => Some(EnergyType::Fighting),
            CardId::A4b122Wishiwashi => Some(EnergyType::Lightning),
            CardId::A4b124WishiwashiEx => Some(EnergyType::Lightning),
            CardId::B2165Minun => Some(EnergyType::Fighting),
            CardId::A2058Uxie => Some(EnergyType::Darkness),
            CardId::A2059Mesprit => Some(EnergyType::Darkness),
            CardId::A2060Azelf => Some(EnergyType::Darkness),
            CardId::B2052Plusle => Some(EnergyType::Fighting),
            CardId::B1047Turtonator => Some(EnergyType::Water),
            CardId::A4b026Cherubi => Some(EnergyType::Fire),
            CardId::PA095Chinchou => Some(EnergyType::Fighting),
            _ => None,
        }
    }

    /// Whether the card is a Pokémon ex.
    pub fn is_ex(&self) -> (r: bool)
        ensures
            r == spec_is_ex(self.id),
    {
        match self.id {
            CardId::A2a071ArceusEx => true,
            CardId::A4b124WishiwashiEx => true,
            _ => false,
        }
    }

    /// The Pokémon ex of the database are exactly the cards whose name ends
    /// in " ex".
    pub proof fn law_ex_by_name(id: CardId)
        ensures
            spec_is_ex(id) <==> {
                let name = spec_name(id);
                name.len() >= 3 && name.subrange(name.len() - 3, name.len() as int) == " ex"@
            },
    {
        reveal_strlit(" ex");
        let name = spec_name(id);
        match id {
            CardId::A1001Bulbasaur => {
                reveal_strlit("Bulbasaur");
                assert(name.len() >= 3 ==> name.subrange(name.len() - 3, name.len() as int)[2] != " ex"@[2]);
            },
            CardId::A1002Ivysaur => {
                reveal_strlit("Ivysaur");
                assert(name.len() >= 3 ==> name.subrange(name.len() - 3, name.len() as int)[2] != " ex"@[2]);
            },
            CardId::A1033Charmander => {
                reveal_strlit("Charmander");
                assert(name.len() >= 3 ==> name.subrange(name.len() - 3, name.len() as int)[2] != " ex"@[2]);
            },
            CardId::A1094Pikachu => {
                reveal_strlit("Pikachu");
                assert(name.len() >= 3 ==> name.subrange(name.len() - 3, name.len() as int)[2] != " ex"@[2]);
            },
            CardId::A2a071ArceusEx => {
                reveal_strlit("Arceus ex");
                assert(name.subrange(name.len() - 3, name.len() as int) =~= " ex"@);
            },
            CardId::A3166TapuKoko => {
                reveal_strlit("Tapu Koko");
                assert(name.len() >= 3 ==> name.subrange(name.len() - 3, name.len() as int)[2] != " ex"@[2]);
            },
            CardId::A4b122Wishiwashi => {
                reveal_strlit("Wishiwashi");
                assert(name.len() >= 3 ==> name.subrange(name.len() - 3, name.len() as int)[2] != " ex"@[2]);
            },
            CardId::A4b124WishiwashiEx => {
                reveal_strlit("Wishiwashi ex");
                assert(name.subrange(name.len() - 3, name.len() as int) =~= " ex"@);
            },
            CardId::B2165Minun => {
                reveal_strlit("Minun");
                assert(name.len() >= 3 ==> name.subrange(name.len() - 3, name.len() as int)[2] != " ex"@[2]);
            },
            CardId::A2058Uxie => {
                reveal_strlit("Uxie");
                assert(name.len() >= 3 ==> name.subrange(name.len() - 3, name.len() as int)[2] != " ex"@[2]);
            },
            CardId::A2059Mesprit => {
                reveal_strlit("Mesprit");
                assert(name.len() >= 3 ==> name.subrange(name.len() - 3, name.len() as int)[2] != " ex"@[2]);
            },
            CardId::A2060Azelf => {
                reveal_strlit("Azelf");
                assert(name.len() >= 3 ==> name.subrange(name.len() - 3, name.len() as int)[2] != " ex"@[2]);
            },
            CardId::B2052Plusle => {
                reveal_strlit("Plusle");
                assert(name.len() >= 3 ==> name.subrange(name.len() - 3, name.len() as int)[2] != " ex"@[2]);
            },
            CardId::B1047Turtonator => {
                reveal_strlit("Turtonator");
                assert(name.len() >= 3 ==> name.subrange(name.len() - 3, name.len() as int)[2] != " ex"@[2]);
            },
            CardId::A4b026Cherubi => {
                reveal_strlit("Cherubi");
                assert(name.len() >= 3 ==> name.subrange(name.len() - 3, name.len() as int)[2] != " ex"@[2]);
            },
            CardId::PA095Chinchou => {
                reveal_strlit("Chinchou");
                assert(name.len() >= 3 ==> name.subrange(name.len() - 3, name.len() as int)[2] != " ex"@[2]);
            },
            CardId::PA001Potion => {
                reveal_strlit("Potion");
                assert(name.len() >= 3 ==> name.subrange(name.len() - 3, name.len() as int)[2] != " ex"@[2]);
            },
            CardId::PA007ProfessorsResearch => {
                reveal_strlit("Professor's Research");
                assert(name.len() >= 3 ==> name.subrange(name.len() - 3, name.len() as int)[2] != " ex"@[2]);
            },
            CardId::A3b067Leftovers => {
                reveal_strlit("Leftovers");
                assert(name.len() >= 3 ==> name.subrange(name.len() - 3, name.len() as int)[2] != " ex"@[2]);
            },
            CardId::A4153SteelApron => {
                reveal_strlit("Steel Apron");
                assert(name.len() >= 3 ==> name.subrange(name.len() - 3, name.len() as int)[2] != " ex"@[2]);
            },
        }
    }

    pub open spec fn knockout_points_spec(self) -> u8 {
        if spec_is_ex(self.id) { 2 } else { 1 }
    }

    /// A Pokémon ex is worth two points to the player who knocks it out,
    /// any other card one: the knockout points are 2 exactly for an ex card,
    /// and 1 otherwise.
    pub proof fn law_knockout_points(self)
        ensures
            self.knockout_points_spec() == 2 <==> spec_is_ex(self.id),
            self.knockout_points_spec() == 1 <==> !spec_is_ex(self.id),
    {
    }

    /// Points the opponent earns for knocking this Pokémon out.
    pub fn get_knockout_points(&self) -> (r: u8)
        ensures
            r == self.knockout_points_spec(),
    {
        if self.is_ex() { 2 } else { 1 }
    }

    /// Number of energies in the retreat cost.
    pub fn get_retreat_cost(&self) -> (r: usize)
        ensures
            r == spec_retreat_cost(self.id),
    {
        match self.id {
            CardId::A1002Ivysaur => 2,
            CardId::A2a071ArceusEx => 2,
            CardId::A4b124WishiwashiEx => 2,
            CardId::B1047Turtonator => 2,
            CardId::PA001Potion => 0,
            CardId::PA007ProfessorsResearch => 0,
            CardId::A3b067Leftovers => 0,
            CardId::A4153SteelApron => 0,
            _ => 1,
        }
    }

    /// Whether the card carries an ability.
    pub fn has_ability(&self) -> (r: bool)
        ensures
            r == spec_has_ability(self.id),
    {
        match self.id {
            CardId::A2a071ArceusEx => true,
            _ => false,
        }
    }

    /// Number of attacks printed on the card.
    pub fn num_attacks(&self) -> (r: usize)
        ensures
            r == spec_num_attacks(self.id),
    {
        match self.id {
            CardId::A1001Bulbasaur => 1,
            CardId::A1002Ivysaur => 1,
            CardId::A1033Charmander => 1,
            CardId::A1094Pikachu => 1,
            CardId::A2a071ArceusEx => 1,
            CardId::A3166TapuKoko => 1,
            CardId::A4b122Wishiwashi => 1,
            CardId::A4b124WishiwashiEx => 1,
            CardId::B2165Minun => 1,
            CardId::A2058Uxie => 1,
            CardId::A2059Mesprit => 1,
            CardId::A2060Azelf => 1,
            CardId::B2052Plusle => 1,
            CardId::B1047Turtonator => 1,
            CardId::A4b026Cherubi => 1,
            CardId::PA095Chinchou => 1,
            _ => 0,
        }
    }

    /// Printed damage of attack `i`.
    pub fn attack_damage(&self, i: usize) -> (r: u32)
        ensures
            r == spec_attack_damage(self.id, i as int),
    {
        if i != 0 {
            return 0;
        }
        match self.id {
            CardId::A1001Bulbasaur => 40,
            CardId::A1002Ivysaur => 60,
            CardId::A1033Charmander => 30,
            CardId::A1094Pikachu => 20,
            CardId::A2a071ArceusEx => 70,
            CardId::A3166TapuKoko => 70,
            CardId::A4b122Wishiwashi => 10,
            CardId::A4b124WishiwashiEx => 30,
            CardId::B2165Minun => 30,
            CardId::A2058Uxie => 20,
            CardId::A2059Mesprit => 200,
            CardId::A2060Azelf => 20,
            CardId::B2052Plusle => 30,
            CardId::B1047Turtonator => 40,
            CardId::A4b026Cherubi => 20,
            CardId::PA095Chinchou => 0,
            _ => 0,
        }
    }

    /// Energy cost of attack `i`.
    pub fn attack_cost(&self, i: usize) -> (r: Vec<EnergyType>)
        ensures
            r@ == spec_attack_cost(self.id, i as int),
    {
        let mut cost: Vec<EnergyType> = Vec::new();
        if i != 0 {
            return cost;
        }
        match self.id {
            CardId::A1001Bulbasaur => {
                cost.push(EnergyType::Grass);
                cost.push(EnergyType::Colorless);
            },
            CardId::A1002Ivysaur => {
                cost.push(EnergyType::Grass);
                cost.push(EnergyType::Colorless);
                cost.push(EnergyType::Colorless);
            },
            CardId::A1033Charmander => {
                cost.push(EnergyType::Fire);
            },
            CardId::A1094Pikachu => {
                cost.push(EnergyType::Lightning);
            },
            CardId::A2a071ArceusEx => {
                cost.push(EnergyType::Colorless);
                cost.push(EnergyType::Colorless);
                cost.push(EnergyType::Colorless);
            },
            CardId::A3166TapuKoko => {
                cost.push(EnergyType::Lightning);
                cost.push(EnergyType::Colorless);
            },
            CardId::A4b122Wishiwashi => {
                cost.push(EnergyType::Water);
            },
            CardId::A4b124WishiwashiEx => {
                cost.push(EnergyType::Water);
                cost.push(EnergyType::Water);
            },
            CardId::B2165Minun => {
                cost.push(EnergyType::Lightning);
            },
            CardId::A2058Uxie => {
                cost.push(EnergyType::Psychic);
            },
            CardId::A2059Mesprit => {
                cost.push(EnergyType::Psychic);
                cost.push(EnergyType::Psychic);
                cost.push(EnergyType::Colorless);
            },
            CardId::A2060Azelf => {
                cost.push(EnergyType::Psychic);
            },
            CardId::B2052Plusle => {
                cost.push(EnergyType::Lightning);
            },
            CardId::B1047Turtonator => {
                cost.push(EnergyType::Fire);
                cost.push(EnergyType::Colorless);
            },
            CardId::A4b026Cherubi => {
                cost.push(EnergyType::Grass);
            },
            CardId::PA095Chinchou => {
                cost.push(EnergyType::Lightning);
            },
            _ => {},
        }
        assert(cost@ =~= spec_attack_cost(self.id, i as int));
        cost
    }

    /// Title of attack `i`.
    pub fn attack_title(&self, i: usize) -> (r: String)
        ensures
            r@ == spec_attack_title(self.id, i as int),
    {
        if i != 0 {
            return String::new();
        }
        let title: &str = match self.id {
            CardId::A1001Bulbasaur => "Vine Whip",
            CardId::A1002Ivysaur => "Razor Leaf",
            CardId::A1033Charmander => "Ember",
            CardId::A1094Pikachu => "Gnaw",
            CardId::A2a071ArceusEx => "Ultimate Force",
            CardId::A3166TapuKoko => "Volt Switch",
            CardId::A4b122Wishiwashi => "Splash",
            CardId::A4b124WishiwashiEx => "School Storm",
            CardId::B2165Minun => "Minus Spark",
            CardId::A2058Uxie => "Mind Blast",
            CardId::A2059Mesprit => "Supreme Blast",
            CardId::A2060Azelf => "Psy Tackle",
            CardId::B2052Plusle => "Plus Spark",
            CardId::B1047Turtonator => "Shell Trap",
            CardId::A4b026Cherubi => "Sweets Relay",
            CardId::PA095Chinchou => "Luring Glow",
            _ => {
                return String::new();
            },
        };
        title.to_owned()
    }

    /// Effect text of attack `i`, if any.
    pub fn attack_effect(&self, i: usize) -> (r: Option<String>)
        ensures
            r is Some <==> spec_attack_effect(self.id, i as int) is Some,
            r matches Some(text) ==> text@ == spec_attack_effect(self.id, i as int).unwrap(),
    {
        if i != 0 {
            return None;
        }
        let text: &str = match self.id {
            CardId::A1033Charmander => "Discard a Fire Energy from this Pokémon.",
            CardId::A2a071ArceusEx => "This attack does 20 more damage for each of your Benched Pokémon.",
            CardId::A3166TapuKoko => "Switch this Pokémon with 1 of your Benched Pokémon.",
            CardId::A4b124WishiwashiEx => "This attack does 40 more damage for each of your Benched Water Pokémon.",
            CardId::A2059Mesprit => "You can use this attack only if you have Uxie and Azelf on your Bench. Discard all Energy from this Pokémon.",
            CardId::B2165Minun => "If Plusle is on your Bench, this attack also does 10 damage to each of your opponent's Benched Pokémon.",
            CardId::B1047Turtonator => "During your opponent's next turn, if this Pokémon is damaged by an attack, do 40 damage to the Attacking Pokémon.",
            CardId::A4b026Cherubi => "If this Pokémon has a Pokémon Tool attached, this attack costs 1 less Grass Energy.",
            CardId::PA095Chinchou => "Flip a coin. If heads, switch in 1 of your opponent's Benched Pokémon to the Active Spot.",
            _ => {
                return None;
            },
        };
        Some(text.to_owned())
    }

    /// The energy that attack `i` costs one less of while the Pokémon has a
    /// Pokémon Tool attached, if the attack says so.
    pub fn tool_cost_discount(&self, i: usize) -> (r: Option<EnergyType>)
        ensures
            r == spec_tool_cost_discount(self.id, i as int),
    {
        if i == 0 && self.id == CardId::A4b026Cherubi {
            Some(EnergyType::Grass)
        } else {
            None
        }
    }

    /// Mechanic of attack `i`, if any.
    pub fn attack_mechanic(&self, i: usize) -> (r: Option<Mechanic>)
        ensures
            spec_attack_mechanic(self.id, i as int, r),
    {
        if i != 0 {
            return None;
        }
        match self.id {
            CardId::A1033Charmander => {
                let mut energies: Vec<EnergyType> = Vec::new();
                energies.push(EnergyType::Fire);
                Some(Mechanic::SelfDiscardEnergy { energies })
            },
            CardId::A2a071ArceusEx => Some(Mechanic::BenchCountDamage {
                include_fixed_damage: true,
                damage_per: 20,
                energy_type: None,
                bench_side: BenchSide::YourBench,
            }),
            CardId::A3166TapuKoko => Some(Mechanic::SwitchSelfWithBench),
            CardId::A4b124WishiwashiEx => Some(Mechanic::BenchCountDamage {
                include_fixed_damage: true,
                damage_per: 40,
                energy_type: Some(EnergyType::Water),
                bench_side: BenchSide::YourBench,
            }),
            CardId::A2059Mesprit => {
                let mut required_pokemon: Vec<String> = Vec::new();
                required_pokemon.push("Uxie".to_owned());
                required_pokemon.push("Azelf".to_owned());
                Some(Mechanic::RequireBenchPokemonAndDiscardAllEnergy { required_pokemon })
            },
            CardId::B2165Minun => Some(Mechanic::AlsoBenchDamageIfPokemonOnBench {
                pokemon_name: "Plusle".to_owned(),
                damage: 10,
            }),
            CardId::B1047Turtonator => Some(Mechanic::DamageAndCardEffect {
                opponent: false,
                effect: CardEffect::CounterattackDamage(40),
                duration: 1,
                coin_flip: false,
            }),
            CardId::PA095Chinchou => Some(Mechanic::CoinFlipSwitchInOpponentBench),
            _ => None,
        }
    }
}

} // verus!

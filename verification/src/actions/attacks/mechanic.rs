use vstd::prelude::*;

use crate::{
    effects::{CardEffect, TurnEffect},
    models::{EnergyType, StatusCondition},
};

verus! {

/// Which benches a bench-counting attack looks at.
#[derive(Debug, Clone, Copy, PartialEq, Eq, Structural)]
pub enum BenchSide {
    YourBench,
    OpponentBench,
    BothBenches,
}

/// Where a copied attack comes from.
#[derive(Debug, Clone, Copy, PartialEq, Eq, Structural)]
pub enum CopyAttackSource {
    OpponentActive,
    OpponentInPlay,
    OwnBenchNonEx,
}

/// The effect of an attack, beyond its printed damage.
#[derive(Debug, Clone, PartialEq)]
pub enum Mechanic {
    SelfHeal {
        amount: u32,
    },
    SearchToHandByEnergy {
        energy_type: EnergyType,
    },
    SearchToBenchByName {
        name: String,
    },
    SearchToBenchBasic,
    SearchRandomPokemonToHand,
    SearchToHandSupporterCard,
    InflictStatusConditions {
        conditions: Vec<StatusCondition>,
        target_opponent: bool,
    },
    ChanceStatusAttack {
        condition: StatusCondition,
    },
    DamageAllOpponentPokemon {
        damage: u32,
    },
    DiscardRandomGlobalEnergy {
        count: usize,
    },
    RandomDamageToOpponentPokemonPerSelfEnergy {
        energy_type: EnergyType,
        damage_per_hit: u32,
    },
    DiscardEnergyFromOpponentActive,
    CoinFlipDiscardEnergyFromOpponentActive,
    ExtraDamageIfEx {
        extra_damage: u32,
    },
    ExtraDamageIfOpponentHasSpecialCondition {
        extra_damage: u32,
    },
    ExtraDamageIfSupportPlayedThisTurn {
        extra_damage: u32,
    },
    SelfDamage {
        amount: u32,
    },
    CoinFlipExtraDamage {
        extra_damage: u32,
    },
    CoinFlipExtraDamageOrSelfDamage {
        extra_damage: u32,
        self_damage: u32,
    },
    ExtraDamageForEachHeads {
        include_fixed_damage: bool,
        damage_per_head: u32,
        num_coins: usize,
    },
    CoinFlipNoEffect,
    SelfDiscardEnergy {
        energies: Vec<EnergyType>,
    },
    ExtraDamageIfExtraEnergy {
        required_extra_energy: Vec<EnergyType>,
        extra_damage: u32,
    },
    ExtraDamageIfTypeEnergyInPlay {
        energy_type: EnergyType,
        minimum_count: usize,
        extra_damage: u32,
    },
    ExtraDamageIfBothHeads {
        extra_damage: u32,
    },
    DirectDamage {
        damage: u32,
        bench_only: bool,
    },
    DamageAndTurnEffect {
        effect: TurnEffect,
        duration: u8,
    },
    DamageAndNextTurnEffect {
        effect: TurnEffect,
    },
    SelfChargeActive {
        energies: Vec<EnergyType>,
    },
    ChargeYourTypeAnyWay {
        energy_type: EnergyType,
        count: usize,
    },
    ChargePsychicByName {
        names: Vec<String>,
    },
    // Fairly unique mechanics
    ManaphyOceanicGift,
    PalkiaExDimensionalStorm,
    MegaBlazikenExMegaBurningAttack,
    MegaKangaskhanExDoublePunchingFamily,
    MoltresExInfernoDance,
    CelebiExPowerfulBloom,
    CoinFlipPerSpecificEnergyType {
        energy_type: EnergyType,
        damage_per_heads: u32,
    },
    MagikarpWaterfallEvolution,
    CoinFlipToBlockAttackNextTurn,
    MoveAllEnergyTypeToBench {
        energy_type: EnergyType,
    },
    ChargeBench {
        energies: Vec<EnergyType>,
        target_benched_type: Option<EnergyType>,
    },
    VaporeonHyperWhirlpool,
    ConditionalBenchDamage {
        required_extra_energy: Vec<EnergyType>,
        bench_damage: u32,
        num_bench_targets: usize,
        opponent: bool,
    },
    ExtraDamageForEachHeadsWithStatus {
        include_fixed_damage: bool,
        damage_per_head: u32,
        num_coins: usize,
        status: StatusCondition,
    },
    DamageAndMultipleCardEffects {
        opponent: bool,
        effects: Vec<CardEffect>,
        duration: u8,
    },
    DamageReducedBySelfDamage,
    ExtraDamagePerTrainerInOpponentDeck {
        damage_per_trainer: u32,
    },
    ExtraDamagePerSupporterInDiscard {
        damage_per_supporter: u32,
    },
    ExtraDamagePerOwnPoint {
        damage_per_point: u32,
    },
    ExtraDamageIfCardInDiscard {
        card_name: String,
        extra_damage: u32,
    },
    DelayedSpotDamage {
        amount: u32,
    },
    // End Unique mechanics
    DamageAndCardEffect {
        opponent: bool,
        effect: CardEffect,
        duration: u8,
        coin_flip: bool, // false = always apply, true = apply on heads
    },
    DrawCard {
        amount: u8,
    },
    SelfDiscardAllEnergy,
    SelfDiscardAllTypeEnergy {
        energy_type: EnergyType,
    },
    SelfDiscardAllTypeEnergyAndDamageAnyOpponentPokemon {
        energy_type: EnergyType,
        damage: u32,
    },
    SelfDiscardRandomEnergy,
    AlsoBenchDamage {
        opponent: bool,
        damage: u32,
        must_have_energy: bool,
    },
    AlsoChoiceBenchDamage {
        opponent: bool,
        damage: u32,
    },
    ExtraDamageIfHurt {
        extra_damage: u32,
        opponent: bool,
    },
    DamageEqualToSelfDamage,
    ExtraDamageEqualToSelfDamage,
    ExtraDamageIfKnockedOutLastTurn {
        extra_damage: u32,
    },
    ExtraDamageIfMovedFromBench {
        extra_damage: u32,
    },
    ExtraDamageIfSpecificPokemonOnBench {
        pokemon_names: Vec<String>,
        extra_damage: u32,
    },
    ExtraDamageIfUsedAttackLastTurn {
        attack_name: String,
        extra_damage: u32,
    },
    DamageMultiplierPerSpecificAttackUse {
        attack_name: String,
        damage_per_use: u32,
    },
    ExtraDamageIfEvolvedThisTurn {
        extra_damage: u32,
    },
    BenchCountDamage {
        include_fixed_damage: bool,
        damage_per: u32,
        energy_type: Option<EnergyType>,
        bench_side: BenchSide,
    },
    EvolutionBenchCountDamage {
        include_fixed_damage: bool,
        damage_per: u32,
    },
    ExtraDamagePerEnergy {
        opponent: bool,
        damage_per_energy: u32,
    },
    ExtraDamagePerRetreatCost {
        damage_per_energy: u32,
    },
    DamagePerEnergyAll {
        opponent: bool,
        damage_per_energy: u32,
    },
    DiscardHandCards {
        count: usize,
    },
    ExtraDamagePerSpecificEnergy {
        energy_type: EnergyType,
        damage_per_energy: u32,
    },
    ExtraDamageIfToolAttached {
        extra_damage: u32,
    },
    RecoilIfKo {
        self_damage: u32,
    },
    ShuffleOpponentActiveIntoDeck,
    KnockBackOpponentActive,
    /// Random spread damage attack (e.g., Draco Meteor, Spurt Fire)
    /// Always targets opponent's active + bench. Optionally includes own bench.
    RandomSpreadDamage {
        times: usize,
        damage_per_hit: u32,
        include_own_bench: bool,
    },
    FlipUntilTailsDamage {
        damage_per_heads: u32,
    },
    DirectDamageIfDamaged {
        damage: u32,
    },
    AttachEnergyToBenchedBasic {
        energy_type: EnergyType,
    },
    DamageAndDiscardOpponentDeck {
        damage: u32,
        discard_count: usize,
    },
    MegaAmpharosExLightningLancer,
    OminousClaw,
    DarknessClaw,
    BlockBasicAttack,
    SwitchSelfWithBench,
    CopyAttack {
        source: CopyAttackSource,
        require_attacker_energy_match: bool,
    },
    SelfAsleepAndHeal {
        amount: u32,
    },
    FlipCoinsBenchDamagePerHead {
        num_coins: usize,
        bench_damage_per_head: u32,
    },
    ExtraDamageIfSelfHpAtMost {
        threshold: u32,
        extra_damage: u32,
    },
    ExtraDamageIfOpponentHpMoreThanSelf {
        extra_damage: u32,
    },
    CoinFlipShuffleRandomOpponentHandCardIntoDeck,
    /// Teal Mask Ogerpon ex – Energized Leaves:
    /// If total energy on both Active Pokémon ≥ threshold, deal extra_damage more.
    ExtraDamageIfCombinedActiveEnergyAtLeast {
        threshold: usize,
        extra_damage: u32,
    },
    /// Hearthflame Mask Ogerpon – Hearthflame Dance:
    /// Flip a coin. If heads, take `count` energy of `energy_type` from your Energy Zone
    /// and attach them to 1 of your Benched Pokémon.
    CoinFlipChargeBench {
        energies: Vec<EnergyType>,
        target_benched_type: Option<EnergyType>,
    },
    /// Wellspring Mask Ogerpon – Wellspring Dance:
    /// Flip a coin. If heads, this attack also does `damage` to 1 of the chosen player's
    /// Benched Pokémon (opponent = true → opponent's bench).
    CoinFlipAlsoChoiceBenchDamage {
        opponent: bool,
        damage: u32,
    },
    /// Venoshock - extra damage if opponent's active is Poisoned.
    ExtraDamageIfDefenderPoisoned {
        extra_damage: u32,
    },
    // Missing Attacks
    DamageOneOpponentPokemonPerItsEnergy {
        damage_per_energy: u32,
    },
    SearchRandomEvolutionToHand,
    ExtraDamageIfDefenderHasAbility {
        extra_damage: u32,
    },
    ExtraDamageIfOpponentActiveHasTool {
        extra_damage: u32,
    },
    MimicAttack,
    CoinFlipCardEffectOnTails {
        effect: CardEffect,
        duration: u8,
    },
    ChoiceBenchHeal {
        amount: u32,
    },
    ChoiceInPlayHeal {
        amount: u32,
    },
    HealSelfDamageDealt,
    CoinFlipSelfDamageOnTails {
        amount: u32,
    },
    ExtraDamageIfAnyBenchedHurt {
        extra_damage: u32,
    },
    HoOhExPhoenixTurbo,
    /// Tornadus — Blow Through: If a Stadium is in play, this attack does extra damage.
    /// Since stadiums are not tracked by the engine, this is treated as a no-op (base damage only).
    ExtraDamageIfStadiumInPlay {
        extra_damage: u32,
    },
    /// Machop — Shatter: Discard a Stadium in play.
    /// Since stadiums are not tracked by the engine, this is treated as a no-op (base damage only).
    DiscardStadium,
    /// Mesprit — Supreme Blast: Can only be used if specific Pokémon are on your Bench.
    /// Discard all Energy from this Pokémon.
    RequireBenchPokemonAndDiscardAllEnergy {
        required_pokemon: Vec<String>,
    },
    /// Mimikyu — Try to Imitate: Flip a coin. If heads, copy opponent's active attack.
    CoinFlipCopyOpponentActiveAttack,
    /// Mew (B2b) — Miraculous Memory: Copy a random attack from opponent's hand/deck.
    CopyRandomOpponentAttack,
    /// Mew — Psy Report: Your opponent reveals their hand.
    RevealOpponentHand,
    /// Mimikyu — Shadow Hit: This attack also does damage to 1 of your Pokémon.
    AlsoChoiceInPlayDamage {
        opponent: bool,
        damage: u32,
    },
    /// Smeargle — Splatter Coating: Change the type of a random Energy attached to your opponent's Active Pokémon.
    ChangeRandomAttachedEnergyType {
        allowed_types: Vec<EnergyType>,
    },
    /// Miltank — Rolling Frenzy: Damage increases per stack until Pokémon leaves Active Spot.
    RollingFrenzyStacks {
        damage_per_stack: u32,
    },
    /// Drampa — Dragon Breath: Coin flip. Tails = attack does nothing. Heads = damage + inflict status.
    CoinFlipNoEffectOrStatus {
        condition: StatusCondition,
    },
    /// Minun — Minus Spark: while the named Pokémon is on the attacker's
    /// Bench, the attack also does `damage` to each of the opponent's
    /// Benched Pokémon.
    AlsoBenchDamageIfPokemonOnBench {
        pokemon_name: String,
        damage: u32,
    },
    /// Chinchou — Luring Glow: flip a coin; on heads the attacker's player
    /// switches in one of the opponent's Benched Pokémon to the Active Spot.
    CoinFlipSwitchInOpponentBench,
}

} // verus!

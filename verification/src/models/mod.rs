mod card;
mod played_card;

pub use card::{
    spec_attack_cost, spec_attack_damage, spec_attack_effect, spec_attack_mechanic,
    spec_attack_title, spec_card_number, spec_energy_type, spec_has_ability, spec_hp,
    spec_is_ex, spec_name, spec_num_attacks, spec_retreat_cost, spec_stage, spec_tool_cost_discount,
    spec_trainer_type,
    spec_weakness, Ability, Attack, Card, CardId, EnergyType, StatusCondition, TrainerType,
    BASIC_STAGE,
};
pub use played_card::{
    energy_type_immunity, get_ability_mechanic, has_soothing_wind, is_immune_to_status,
    spec_ability, spec_energy_type_immunity, spec_has_soothing_wind, spec_immune_to_status,
    PlayedCard,
};
